//! Browser toolset configuration: which groups of browser-automation tools
//! an agent receives.
//!
//! The tools themselves drive a live browser session and live outside this
//! crate's verified core; what stands here is the selection state that
//! decides which tool groups are enabled.

use vstd::prelude::*;

verus! {

/// Selects the groups of browser automation tools to hand to an agent.
///
/// A new toolset enables every group; the `with_*` methods switch single
/// groups on or off.
pub struct BrowserToolset {
    /// Include navigation tools (navigate, back, forward, refresh).
    include_navigation: bool,
    /// Include interaction tools (click, type, select).
    include_interaction: bool,
    /// Include extraction tools (extract text, attributes, links, page info).
    include_extraction: bool,
    /// Include wait tools.
    include_wait: bool,
    /// Include the screenshot tool.
    include_screenshot: bool,
    /// Include JavaScript evaluation tools.
    include_js: bool,
    /// Include cookie management tools.
    include_cookies: bool,
    /// Include window/tab management tools.
    include_windows: bool,
    /// Include frame/iframe management tools.
    include_frames: bool,
    /// Include advanced action tools (drag-drop, focus, file upload, ...).
    include_actions: bool,
}

/// Mathematical model of a [`BrowserToolset`]: one flag per tool group.
#[verifier::ext_equal]
pub struct BrowserToolsetV {
    pub navigation: bool,
    pub interaction: bool,
    pub extraction: bool,
    pub wait: bool,
    pub screenshot: bool,
    pub js: bool,
    pub cookies: bool,
    pub windows: bool,
    pub frames: bool,
    pub actions: bool,
}

impl View for BrowserToolset {
    type V = BrowserToolsetV;

    closed spec fn view(&self) -> BrowserToolsetV {
        BrowserToolsetV {
            navigation: self.include_navigation,
            interaction: self.include_interaction,
            extraction: self.include_extraction,
            wait: self.include_wait,
            screenshot: self.include_screenshot,
            js: self.include_js,
            cookies: self.include_cookies,
            windows: self.include_windows,
            frames: self.include_frames,
            actions: self.include_actions,
        }
    }
}

impl BrowserToolset {
    /// Create a new toolset with all tool groups enabled.
    pub fn new() -> (r: Self)
        ensures
            r@ == (BrowserToolsetV {
                navigation: true,
                interaction: true,
                extraction: true,
                wait: true,
                screenshot: true,
                js: true,
                cookies: true,
                windows: true,
                frames: true,
                actions: true,
            }),
    {
        BrowserToolset {
            include_navigation: true,
            include_interaction: true,
            include_extraction: true,
            include_wait: true,
            include_screenshot: true,
            include_js: true,
            include_cookies: true,
            include_windows: true,
            include_frames: true,
            include_actions: true,
        }
    }

    /// Enable or disable navigation tools.
    pub fn with_navigation(self, enabled: bool) -> (r: Self)
        ensures
            r@ == (BrowserToolsetV { navigation: enabled, ..self@ }),
    {
        BrowserToolset { include_navigation: enabled, ..self }
    }

    /// Enable or disable interaction tools.
    pub fn with_interaction(self, enabled: bool) -> (r: Self)
        ensures
            r@ == (BrowserToolsetV { interaction: enabled, ..self@ }),
    {
        BrowserToolset { include_interaction: enabled, ..self }
    }

    /// Enable or disable extraction tools.
    pub fn with_extraction(self, enabled: bool) -> (r: Self)
        ensures
            r@ == (BrowserToolsetV { extraction: enabled, ..self@ }),
    {
        BrowserToolset { include_extraction: enabled, ..self }
    }

    /// Enable or disable wait tools.
    pub fn with_wait(self, enabled: bool) -> (r: Self)
        ensures
            r@ == (BrowserToolsetV { wait: enabled, ..self@ }),
    {
        BrowserToolset { include_wait: enabled, ..self }
    }

    /// Enable or disable the screenshot tool.
    pub fn with_screenshot(self, enabled: bool) -> (r: Self)
        ensures
            r@ == (BrowserToolsetV { screenshot: enabled, ..self@ }),
    {
        BrowserToolset { include_screenshot: enabled, ..self }
    }

    /// Enable or disable JavaScript tools.
    pub fn with_js(self, enabled: bool) -> (r: Self)
        ensures
            r@ == (BrowserToolsetV { js: enabled, ..self@ }),
    {
        BrowserToolset { include_js: enabled, ..self }
    }

    /// Enable or disable cookie management tools.
    pub fn with_cookies(self, enabled: bool) -> (r: Self)
        ensures
            r@ == (BrowserToolsetV { cookies: enabled, ..self@ }),
    {
        BrowserToolset { include_cookies: enabled, ..self }
    }

    /// Enable or disable window/tab management tools.
    pub fn with_windows(self, enabled: bool) -> (r: Self)
        ensures
            r@ == (BrowserToolsetV { windows: enabled, ..self@ }),
    {
        BrowserToolset { include_windows: enabled, ..self }
    }

    /// Enable or disable frame/iframe management tools.
    pub fn with_frames(self, enabled: bool) -> (r: Self)
        ensures
            r@ == (BrowserToolsetV { frames: enabled, ..self@ }),
    {
        BrowserToolset { include_frames: enabled, ..self }
    }

    /// Enable or disable advanced action tools.
    pub fn with_actions(self, enabled: bool) -> (r: Self)
        ensures
            r@ == (BrowserToolsetV { actions: enabled, ..self@ }),
    {
        BrowserToolset { include_actions: enabled, ..self }
    }
}

} // verus!
