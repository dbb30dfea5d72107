//! The window capture source: captures one window, found by class, title
//! or executable.

use vstd::prelude::*;

use crate::data::ObsValue;
use crate::source_builder::ObsSourceBuilder;
use crate::source_builder::ObsSourceBuilderId;
use crate::source_builder::SourceBuilderCore;
use crate::utils::ObsString;

verus! {

/// How the capture source matches its window when the exact one is gone.
#[derive(Clone, Copy, Debug, PartialEq, Eq, Structural)]
pub enum ObsWindowPriority {
    /// The window class must match: windows of the same type.
    Class,
    /// The title must match; otherwise fall back to the same class.
    Title,
    /// The title must match; otherwise fall back to the same executable.
    Executable,
}

/// The integer the native settings carry for a priority.
pub open spec fn priority_value(p: ObsWindowPriority) -> i64 {
    match p {
        ObsWindowPriority::Class => 0,
        ObsWindowPriority::Title => 1,
        ObsWindowPriority::Executable => 2,
    }
}

/// One capturable window, as the platform layer reports it.
#[derive(Clone, Debug)]
pub struct WindowInfo {
    pub title: ObsString,
    pub class: ObsString,
    pub executable: ObsString,
}

/// A builder for window capture sources.
pub struct WindowCaptureSourceBuilder {
    core: SourceBuilderCore,
}

impl WindowCaptureSourceBuilder {
    /// A builder for a window capture source with the given name.
    pub fn new(name: &str) -> (r: WindowCaptureSourceBuilder)
        ensures
            r.builder_core().name_view() == name@,
            r.builder_core().builder_wf(),
            r.builder_core().can_set(),
    {
        WindowCaptureSourceBuilder { core: SourceBuilderCore::new(name) }
    }

    /// Sets the window to capture.
    pub fn set_window(self, window: &str) -> (r: WindowCaptureSourceBuilder)
        requires
            self.builder_core().can_set(),
            self.builder_core().builder_wf(),
        ensures
            r.builder_core().builder_wf(),
            r.builder_core().signal_count() == self.builder_core().signal_count() + 1,
            r.builder_core().name_view() == self.builder_core().name_view(),
            r.builder_core().setting_of("window"@) matches Some(v) && v matches ObsValue::Text(t)
                && t@ == window@,
            forall|k: Seq<char>|
                k != "window"@ ==> r.builder_core().setting_of(k) == self.builder_core().setting_of(
                    k,
                ),
    {
        WindowCaptureSourceBuilder { core: self.core.set_string_value("window", window) }
    }

    /// Sets the matching priority.
    pub fn set_priority(self, priority: ObsWindowPriority) -> (r: WindowCaptureSourceBuilder)
        requires
            self.builder_core().can_set(),
            self.builder_core().builder_wf(),
        ensures
            r.builder_core().builder_wf(),
            r.builder_core().signal_count() == self.builder_core().signal_count() + 1,
            r.builder_core().name_view() == self.builder_core().name_view(),
            r.builder_core().setting_of("priority"@) == Some(
                ObsValue::Integer(priority_value(priority)),
            ),
            forall|k: Seq<char>|
                k != "priority"@ ==> r.builder_core().setting_of(k)
                    == self.builder_core().setting_of(k),
    {
        let value: i64 = match priority {
            ObsWindowPriority::Class => 0,
            ObsWindowPriority::Title => 1,
            ObsWindowPriority::Executable => 2,
        };
        WindowCaptureSourceBuilder { core: self.core.set_int_value("priority", value) }
    }

    /// The windows that can be captured.  Window enumeration is platform
    /// work outside the engine model, so this list is empty here; the
    /// platform layer supplies `WindowInfo` values of its own.
    pub fn get_windows() -> (r: Vec<WindowInfo>)
        ensures
            r@.len() == 0,
    {
        Vec::new()
    }
}

impl ObsSourceBuilderId for WindowCaptureSourceBuilder {
    closed spec fn id_spec() -> Seq<char> {
        "window_capture"@
    }

    fn get_id() -> (r: ObsString) {
        ObsString::new("window_capture")
    }
}

impl ObsSourceBuilder for WindowCaptureSourceBuilder {
    closed spec fn builder_core(self) -> SourceBuilderCore {
        self.core
    }

    fn into_core(self) -> (r: SourceBuilderCore) {
        self.core
    }

    fn get_name(&self) -> (r: ObsString) {
        self.core.name_obs()
    }
}

} // verus!
