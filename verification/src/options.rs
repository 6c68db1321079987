//! Options for starting the desktop interface.

use std::path::PathBuf;
use vstd::prelude::*;

verus! {

/// `std::path::PathBuf`, carried as an opaque value.
#[verifier::external_type_specification]
#[verifier::external_body]
pub struct ExPathBuf(PathBuf);

/// Options for running the desktop interface.
#[derive(Debug)]
pub struct GuiOptions {
    /// Run in demo mode with mock data.
    pub demo: bool,
    /// Save a screenshot to this path, then exit.
    pub screenshot: Option<PathBuf>,
    /// Frames to wait before taking the screenshot.
    pub screenshot_delay_frames: u32,
}

impl Default for GuiOptions {
    fn default() -> (r: Self)
        ensures
            !r.demo,
            r.screenshot is None,
            r.screenshot_delay_frames == 0,
    {
        GuiOptions { demo: false, screenshot: None, screenshot_delay_frames: 0 }
    }
}

impl GuiOptions {
    /// Options with demo mode enabled and everything else at its default.
    pub fn demo() -> (r: Self)
        ensures
            r.demo,
            r.screenshot is None,
            r.screenshot_delay_frames == 0,
    {
        GuiOptions { demo: true, ..Default::default() }
    }

    /// The same options with a screenshot path set.
    pub fn with_screenshot(self, path: PathBuf) -> (r: Self)
        ensures
            r.demo == self.demo,
            r.screenshot == Some(path),
            r.screenshot_delay_frames == self.screenshot_delay_frames,
    {
        let mut s = self;
        s.screenshot = Some(path);
        s
    }
}

} // verus!
