//! PulseAudio capture sources: audio input and output capture on Linux.

use vstd::prelude::*;

use crate::data::ObsValue;
use crate::source_builder::ObsSourceBuilder;
use crate::source_builder::ObsSourceBuilderId;
use crate::source_builder::SourceBuilderCore;
use crate::utils::ObsString;

verus! {

/// A builder for PulseAudio input (microphone) capture sources.
pub struct PulseInputSource {
    core: SourceBuilderCore,
}

/// A builder for PulseAudio output (monitor) capture sources.
pub struct PulseOutputSource {
    core: SourceBuilderCore,
}

impl PulseInputSource {
    /// A builder for an input capture source with the given name.
    pub fn new(name: &str) -> (r: PulseInputSource)
        ensures
            r.builder_core().name_view() == name@,
            r.builder_core().builder_wf(),
            r.builder_core().can_set(),
    {
        PulseInputSource { core: SourceBuilderCore::new(name) }
    }

    /// Sets the PulseAudio device to capture.
    pub fn set_device_id(self, device_id: &str) -> (r: PulseInputSource)
        requires
            self.builder_core().can_set(),
            self.builder_core().builder_wf(),
        ensures
            r.builder_core().builder_wf(),
            r.builder_core().signal_count() == self.builder_core().signal_count() + 1,
            r.builder_core().name_view() == self.builder_core().name_view(),
            r.builder_core().setting_of("device_id"@) matches Some(v) && v matches ObsValue::Text(t)
                && t@ == device_id@,
            forall|k: Seq<char>|
                k != "device_id"@ ==> r.builder_core().setting_of(k)
                    == self.builder_core().setting_of(k),
    {
        PulseInputSource { core: self.core.set_string_value("device_id", device_id) }
    }

    /// Captures the default PulseAudio input device.
    pub fn set_default_device(self) -> (r: PulseInputSource)
        requires
            self.builder_core().can_set(),
            self.builder_core().builder_wf(),
        ensures
            r.builder_core().builder_wf(),
            r.builder_core().signal_count() == self.builder_core().signal_count() + 1,
            r.builder_core().name_view() == self.builder_core().name_view(),
            r.builder_core().setting_of("device_id"@) matches Some(v) && v matches ObsValue::Text(t)
                && t@ == "default"@,
            forall|k: Seq<char>|
                k != "device_id"@ ==> r.builder_core().setting_of(k)
                    == self.builder_core().setting_of(k),
    {
        self.set_device_id("default")
    }
}

impl ObsSourceBuilderId for PulseInputSource {
    closed spec fn id_spec() -> Seq<char> {
        "pulse_input_capture"@
    }

    fn get_id() -> (r: ObsString) {
        ObsString::new("pulse_input_capture")
    }
}

impl ObsSourceBuilder for PulseInputSource {
    closed spec fn builder_core(self) -> SourceBuilderCore {
        self.core
    }

    fn into_core(self) -> (r: SourceBuilderCore) {
        self.core
    }

    fn get_name(&self) -> (r: ObsString) {
        self.core.name_obs()
    }
}

impl PulseOutputSource {
    /// A builder for an output capture source with the given name.
    pub fn new(name: &str) -> (r: PulseOutputSource)
        ensures
            r.builder_core().name_view() == name@,
            r.builder_core().builder_wf(),
            r.builder_core().can_set(),
    {
        PulseOutputSource { core: SourceBuilderCore::new(name) }
    }

    /// Sets the PulseAudio device to capture.
    pub fn set_device_id(self, device_id: &str) -> (r: PulseOutputSource)
        requires
            self.builder_core().can_set(),
            self.builder_core().builder_wf(),
        ensures
            r.builder_core().builder_wf(),
            r.builder_core().signal_count() == self.builder_core().signal_count() + 1,
            r.builder_core().name_view() == self.builder_core().name_view(),
            r.builder_core().setting_of("device_id"@) matches Some(v) && v matches ObsValue::Text(t)
                && t@ == device_id@,
            forall|k: Seq<char>|
                k != "device_id"@ ==> r.builder_core().setting_of(k)
                    == self.builder_core().setting_of(k),
    {
        PulseOutputSource { core: self.core.set_string_value("device_id", device_id) }
    }

    /// Captures the default PulseAudio output device.
    pub fn set_default_device(self) -> (r: PulseOutputSource)
        requires
            self.builder_core().can_set(),
            self.builder_core().builder_wf(),
        ensures
            r.builder_core().builder_wf(),
            r.builder_core().signal_count() == self.builder_core().signal_count() + 1,
            r.builder_core().name_view() == self.builder_core().name_view(),
            r.builder_core().setting_of("device_id"@) matches Some(v) && v matches ObsValue::Text(t)
                && t@ == "default"@,
            forall|k: Seq<char>|
                k != "device_id"@ ==> r.builder_core().setting_of(k)
                    == self.builder_core().setting_of(k),
    {
        self.set_device_id("default")
    }
}

impl ObsSourceBuilderId for PulseOutputSource {
    closed spec fn id_spec() -> Seq<char> {
        "pulse_output_capture"@
    }

    fn get_id() -> (r: ObsString) {
        ObsString::new("pulse_output_capture")
    }
}

impl ObsSourceBuilder for PulseOutputSource {
    closed spec fn builder_core(self) -> SourceBuilderCore {
        self.core
    }

    fn into_core(self) -> (r: SourceBuilderCore) {
        self.core
    }

    fn get_name(&self) -> (r: ObsString) {
        self.core.name_obs()
    }
}

} // verus!
