# aranet_cli

The logic of the Aranet command-line and desktop tools, verified with Verus.

`src/` is the library. Its functions are proved against their contracts,
except a small set of trusted items: thin wrappers around calls into `std`,
`time`, `owo-colors` and `tabled` (the clock, calendar fields, string
pushes, colors, table borders), each marked `#[verifier::external_body]`
or `assume_specification` with a contract that states what the outside
function's documentation promises. The library covers:

- value classification and text for the terminal (`style`, `types`,
  `helpers`, `text`, `timefmt`, `ansi`), the CLI's option and configuration
  handling (`cli`, `config`);
- the desktop interface as state and decisions: the event handling of
  `session` (what each worker event does to the interface state), the menu,
  tray and keyboard commands (`ui`, `menu`, `tray`), the panels
  (`device_list`, `device_panel`, `comparison`, `history`, `settings_panel`,
  `app_settings`, `service_panel`, `status_bar`), themes and demo data;
- the background worker's decisions (`worker`, `sync`, `service`): after
  each piece of outside work (Bluetooth, the local store, the collector
  service) a function decides which events to send and what to do next.

Drawing the interface, Bluetooth and network access, files and floating
point stay outside: the caller performs the actions the library returns
and hands back what came of them.

`app/` is the `aranet` command around the library (argument parsing, the
configuration file, terminal output). `tests/` exercises the library.
