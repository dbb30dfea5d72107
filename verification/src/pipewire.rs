//! PipeWire capture sources: screen, window and camera capture through
//! the desktop and camera portals, with builders for creation and
//! updaters for changing a live source's settings.

use vstd::prelude::*;

use crate::context::ObsContext;
use crate::data::kv_find_last;
use crate::data::ObsDataUpdater;
use crate::data::ObsValue;
use crate::engine::is_source;
use crate::engine::slot_of;
use crate::error::ObsError;
use crate::source_builder::ObsSourceBuilder;
use crate::source_builder::ObsSourceBuilderId;
use crate::source_builder::SourceBuilderCore;
use crate::sources::ObsSourceRef;
use crate::utils::dec_str;
use crate::utils::str_eq;
use crate::utils::u32_to_string;
use crate::utils::ObsString;

verus! {

/// The PipeWire capture portals.
#[derive(Clone, Copy, Debug, PartialEq, Eq, Structural)]
pub enum ObsPipeWireSourceType {
    /// Screen capture via the desktop portal.
    DesktopCapture,
    /// Camera capture via the camera portal.
    CameraCapture,
}

/// The shared state of a PipeWire settings updater: the target source and
/// the queued writes, applied in one step by `update`.
pub struct SourceUpdaterCore {
    source: usize,
    pending: ObsDataUpdater,
}

impl SourceUpdaterCore {
    /// The target source's handle.
    pub closed spec fn source_spec(self) -> usize {
        self.source
    }

    /// The queued writes.
    pub closed spec fn pending_spec(self) -> ObsDataUpdater {
        self.pending
    }

    /// An updater for the given source with nothing queued.
    pub fn new(source: &ObsSourceRef) -> (r: SourceUpdaterCore)
        ensures
            r.source_spec() == source.handle_spec(),
            r.pending_spec().pending_view() == Seq::<(String, ObsValue)>::empty(),
    {
        SourceUpdaterCore { source: source.raw_handle(), pending: ObsDataUpdater::new() }
    }

    /// Queues one boolean write.
    pub fn queue_bool(self, key: &str, value: bool) -> (r: SourceUpdaterCore)
        ensures
            r.source_spec() == self.source_spec(),
            r.pending_spec().pending_view().len() == self.pending_spec().pending_view().len() + 1,
            r.pending_spec().pending_view().last().0@ == key@,
            r.pending_spec().pending_view().last().1 == ObsValue::Boolean(value),
            r.pending_spec().pending_view().take(self.pending_spec().pending_view().len() as int)
                == self.pending_spec().pending_view(),
    {
        SourceUpdaterCore { source: self.source, pending: self.pending.set_bool(key, value) }
    }

    /// Queues one text write.
    pub fn queue_string(self, key: &str, value: &str) -> (r: SourceUpdaterCore)
        ensures
            r.source_spec() == self.source_spec(),
            r.pending_spec().pending_view().len() == self.pending_spec().pending_view().len() + 1,
            r.pending_spec().pending_view().last().0@ == key@,
            r.pending_spec().pending_view().last().1 matches ObsValue::Text(t) && t@ == value@,
            r.pending_spec().pending_view().take(self.pending_spec().pending_view().len() as int)
                == self.pending_spec().pending_view(),
    {
        SourceUpdaterCore { source: self.source, pending: self.pending.set_string(key, value) }
    }

    /// Applies every queued write to the source's settings in one batch,
    /// signalling exactly one update.
    pub fn update(self, ctx: &mut ObsContext) -> (r: Result<(), ObsError>)
        requires
            old(ctx).wf(),
        ensures
            final(ctx).wf(),
            !old(ctx).alive() ==> (r == Err::<(), ObsError>(ObsError::ThreadFailure) && *final(ctx)
                == *old(ctx)),
            old(ctx).alive() && !is_source(old(ctx).core_view().objects_view(), self.source_spec())
                ==> (r == Err::<(), ObsError>(ObsError::SourceNotFound) && *final(ctx) == *old(ctx)),
            old(ctx).alive() && is_source(old(ctx).core_view().objects_view(), self.source_spec())
                && slot_of(
                old(ctx).core_view().objects_view(),
                self.source_spec(),
            ).body->SourceBody_settings.update_signals() < u64::MAX ==> ({
                let pre_data = slot_of(
                    old(ctx).core_view().objects_view(),
                    self.source_spec(),
                ).body->SourceBody_settings;
                let post_data = slot_of(
                    final(ctx).core_view().objects_view(),
                    self.source_spec(),
                ).body->SourceBody_settings;
                &&& r == Ok::<(), ObsError>(())
                &&& forall|k: Seq<char>| #![auto] post_data.lookup(k) == (match kv_find_last(
                    self.pending_spec().pending_view(),
                    k,
                ) {
                    Some(v) => Some(v),
                    None => pre_data.lookup(k),
                })
                &&& post_data.update_signals() == pre_data.update_signals() + 1
                &&& crate::engine::same_counts(old(ctx).core_view(), final(ctx).core_view())
                &&& final(ctx).alive()
            }),
    {
        if !ctx.is_alive() {
            return Err(ObsError::ThreadFailure);
        }
        if !ctx.source_exists(self.source) {
            return Err(ObsError::SourceNotFound);
        }
        if ctx.source_update_signals(self.source) == u64::MAX {
            return Err(ObsError::InvalidOperation("the settings update counter is saturated".to_owned()));
        }
        let ghost pre = ctx.core_view();
        ctx.source_apply_updater(self.source, self.pending);
        proof {
            let pre_slot = slot_of(pre.objects_view(), self.source_spec());
            let post_data = slot_of(
                ctx.core_view().objects_view(),
                self.source_spec(),
            ).body->SourceBody_settings;
            let s2 = crate::engine::ObjectSlot {
                shares: pre_slot.shares,
                body: crate::engine::ObjectBody::SourceBody {
                    id: pre_slot.body->SourceBody_id,
                    name: pre_slot.body->SourceBody_name,
                    settings: post_data,
                },
            };
            crate::engine::lemma_update_slot(pre.objects_view(), self.source_spec(), s2);
        }
        Ok(())
    }
}

/// A builder for desktop-portal screen capture sources.
pub struct PipeWireDesktopCaptureSourceBuilder {
    core: SourceBuilderCore,
}

/// An updater for a live desktop-portal capture source.
pub struct PipeWireDesktopCaptureSourceUpdater {
    core: SourceUpdaterCore,
}

/// A builder for window capture sources via the desktop portal.
pub struct PipeWireWindowCaptureSourceBuilder {
    core: SourceBuilderCore,
}

/// An updater for a live window capture source.
pub struct PipeWireWindowCaptureSourceUpdater {
    core: SourceUpdaterCore,
}

/// A builder for combined screen and window capture sources.
pub struct PipeWireScreenCaptureSourceBuilder {
    core: SourceBuilderCore,
}

/// An updater for a live combined capture source.
pub struct PipeWireScreenCaptureSourceUpdater {
    core: SourceUpdaterCore,
}

/// A builder for camera capture sources via the camera portal.
pub struct PipeWireCameraSourceBuilder {
    core: SourceBuilderCore,
}

impl PipeWireDesktopCaptureSourceBuilder {
    /// A builder for a desktop capture source with the given name.
    pub fn new(name: &str) -> (r: PipeWireDesktopCaptureSourceBuilder)
        ensures
            r.builder_core().name_view() == name@,
            r.builder_core().builder_wf(),
            r.builder_core().can_set(),
    {
        PipeWireDesktopCaptureSourceBuilder { core: SourceBuilderCore::new(name) }
    }

    /// Sets the restore token for reconnecting to an earlier session.
    pub fn set_restore_token(self, token: &str) -> (r: PipeWireDesktopCaptureSourceBuilder)
        requires
            self.builder_core().can_set(),
            self.builder_core().builder_wf(),
        ensures
            r.builder_core().builder_wf(),
            r.builder_core().signal_count() == self.builder_core().signal_count() + 1,
            r.builder_core().name_view() == self.builder_core().name_view(),
            r.builder_core().setting_of("RestoreToken"@) matches Some(v) && v matches ObsValue::Text(t)
                && t@ == token@,
            forall|k: Seq<char>|
                k != "RestoreToken"@ ==> r.builder_core().setting_of(k)
                    == self.builder_core().setting_of(k),
    {
        PipeWireDesktopCaptureSourceBuilder {
            core: self.core.set_string_value("RestoreToken", token),
        }
    }

    /// Chooses whether the cursor is captured.
    pub fn set_show_cursor(self, show: bool) -> (r: PipeWireDesktopCaptureSourceBuilder)
        requires
            self.builder_core().can_set(),
            self.builder_core().builder_wf(),
        ensures
            r.builder_core().builder_wf(),
            r.builder_core().signal_count() == self.builder_core().signal_count() + 1,
            r.builder_core().name_view() == self.builder_core().name_view(),
            r.builder_core().setting_of("ShowCursor"@) == Some(ObsValue::Boolean(show)),
            forall|k: Seq<char>|
                k != "ShowCursor"@ ==> r.builder_core().setting_of(k)
                    == self.builder_core().setting_of(k),
    {
        PipeWireDesktopCaptureSourceBuilder { core: self.core.set_bool_value("ShowCursor", show) }
    }

    /// Enables cursor capture.
    pub fn with_cursor(self) -> (r: PipeWireDesktopCaptureSourceBuilder)
        requires
            self.builder_core().can_set(),
            self.builder_core().builder_wf(),
        ensures
            r.builder_core().builder_wf(),
            r.builder_core().signal_count() == self.builder_core().signal_count() + 1,
            r.builder_core().name_view() == self.builder_core().name_view(),
            r.builder_core().setting_of("ShowCursor"@) == Some(ObsValue::Boolean(true)),
            forall|k: Seq<char>|
                k != "ShowCursor"@ ==> r.builder_core().setting_of(k)
                    == self.builder_core().setting_of(k),
    {
        self.set_show_cursor(true)
    }
}

impl ObsSourceBuilderId for PipeWireDesktopCaptureSourceBuilder {
    closed spec fn id_spec() -> Seq<char> {
        "pipewire-desktop-capture-source"@
    }

    fn get_id() -> (r: ObsString) {
        ObsString::new("pipewire-desktop-capture-source")
    }
}

impl ObsSourceBuilder for PipeWireDesktopCaptureSourceBuilder {
    closed spec fn builder_core(self) -> SourceBuilderCore {
        self.core
    }

    fn into_core(self) -> (r: SourceBuilderCore) {
        self.core
    }

    fn get_name(&self) -> (r: ObsString) {
        self.core.name_obs()
    }
}

impl PipeWireDesktopCaptureSourceUpdater {
    /// An updater for the given live source.
    pub fn new(source: &ObsSourceRef) -> (r: PipeWireDesktopCaptureSourceUpdater)
        ensures
            r.updater_core().source_spec() == source.handle_spec(),
            r.updater_core().pending_spec().pending_view() == Seq::<(String, ObsValue)>::empty(),
    {
        PipeWireDesktopCaptureSourceUpdater { core: SourceUpdaterCore::new(source) }
    }

    /// The updater's carried state.
    pub closed spec fn updater_core(self) -> SourceUpdaterCore {
        self.core
    }

    /// Queues a change of the cursor-capture flag.
    pub fn set_show_cursor(self, show: bool) -> (r: PipeWireDesktopCaptureSourceUpdater)
        ensures
            r.updater_core().source_spec() == self.updater_core().source_spec(),
            r.updater_core().pending_spec().pending_view().last().0@ == "ShowCursor"@,
            r.updater_core().pending_spec().pending_view().last().1 == ObsValue::Boolean(show),
            r.updater_core().pending_spec().pending_view().len() == self.updater_core().pending_spec().pending_view().len() + 1,
    {
        PipeWireDesktopCaptureSourceUpdater { core: self.core.queue_bool("ShowCursor", show) }
    }

    /// Applies the queued changes in one batch, signalling exactly one
    /// update on the source's settings.
    pub fn update(self, ctx: &mut ObsContext) -> (r: Result<(), ObsError>)
        requires
            old(ctx).wf(),
        ensures
            final(ctx).wf(),
            !old(ctx).alive() ==> (r == Err::<(), ObsError>(ObsError::ThreadFailure) && *final(ctx)
                == *old(ctx)),
            old(ctx).alive() && !is_source(
                old(ctx).core_view().objects_view(),
                self.updater_core().source_spec(),
            ) ==> (r == Err::<(), ObsError>(ObsError::SourceNotFound) && *final(ctx) == *old(ctx)),
            old(ctx).alive() && is_source(
                old(ctx).core_view().objects_view(),
                self.updater_core().source_spec(),
            ) && slot_of(
                old(ctx).core_view().objects_view(),
                self.updater_core().source_spec(),
            ).body->SourceBody_settings.update_signals() < u64::MAX ==> ({
                let pre_data = slot_of(
                    old(ctx).core_view().objects_view(),
                    self.updater_core().source_spec(),
                ).body->SourceBody_settings;
                let post_data = slot_of(
                    final(ctx).core_view().objects_view(),
                    self.updater_core().source_spec(),
                ).body->SourceBody_settings;
                &&& r == Ok::<(), ObsError>(())
                &&& forall|k: Seq<char>| #![auto] post_data.lookup(k) == (match kv_find_last(
                    self.updater_core().pending_spec().pending_view(),
                    k,
                ) {
                    Some(v) => Some(v),
                    None => pre_data.lookup(k),
                })
                &&& post_data.update_signals() == pre_data.update_signals() + 1
                &&& crate::engine::same_counts(old(ctx).core_view(), final(ctx).core_view())
                &&& final(ctx).alive()
            }),
    {
        self.core.update(ctx)
    }
}

impl PipeWireWindowCaptureSourceBuilder {
    /// A builder for a window capture source with the given name.
    pub fn new(name: &str) -> (r: PipeWireWindowCaptureSourceBuilder)
        ensures
            r.builder_core().name_view() == name@,
            r.builder_core().builder_wf(),
            r.builder_core().can_set(),
    {
        PipeWireWindowCaptureSourceBuilder { core: SourceBuilderCore::new(name) }
    }

    /// Sets the restore token for reconnecting to an earlier session.
    pub fn set_restore_token(self, token: &str) -> (r: PipeWireWindowCaptureSourceBuilder)
        requires
            self.builder_core().can_set(),
            self.builder_core().builder_wf(),
        ensures
            r.builder_core().builder_wf(),
            r.builder_core().signal_count() == self.builder_core().signal_count() + 1,
            r.builder_core().name_view() == self.builder_core().name_view(),
            r.builder_core().setting_of("RestoreToken"@) matches Some(v) && v matches ObsValue::Text(t)
                && t@ == token@,
            forall|k: Seq<char>|
                k != "RestoreToken"@ ==> r.builder_core().setting_of(k)
                    == self.builder_core().setting_of(k),
    {
        PipeWireWindowCaptureSourceBuilder {
            core: self.core.set_string_value("RestoreToken", token),
        }
    }

    /// Chooses whether the cursor is captured.
    pub fn set_show_cursor(self, show: bool) -> (r: PipeWireWindowCaptureSourceBuilder)
        requires
            self.builder_core().can_set(),
            self.builder_core().builder_wf(),
        ensures
            r.builder_core().builder_wf(),
            r.builder_core().signal_count() == self.builder_core().signal_count() + 1,
            r.builder_core().name_view() == self.builder_core().name_view(),
            r.builder_core().setting_of("ShowCursor"@) == Some(ObsValue::Boolean(show)),
            forall|k: Seq<char>|
                k != "ShowCursor"@ ==> r.builder_core().setting_of(k)
                    == self.builder_core().setting_of(k),
    {
        PipeWireWindowCaptureSourceBuilder { core: self.core.set_bool_value("ShowCursor", show) }
    }
}

impl ObsSourceBuilderId for PipeWireWindowCaptureSourceBuilder {
    closed spec fn id_spec() -> Seq<char> {
        "pipewire-window-capture-source"@
    }

    fn get_id() -> (r: ObsString) {
        ObsString::new("pipewire-window-capture-source")
    }
}

impl ObsSourceBuilder for PipeWireWindowCaptureSourceBuilder {
    closed spec fn builder_core(self) -> SourceBuilderCore {
        self.core
    }

    fn into_core(self) -> (r: SourceBuilderCore) {
        self.core
    }

    fn get_name(&self) -> (r: ObsString) {
        self.core.name_obs()
    }
}

impl PipeWireWindowCaptureSourceUpdater {
    /// An updater for the given live source.
    pub fn new(source: &ObsSourceRef) -> (r: PipeWireWindowCaptureSourceUpdater)
        ensures
            r.updater_core().source_spec() == source.handle_spec(),
            r.updater_core().pending_spec().pending_view() == Seq::<(String, ObsValue)>::empty(),
    {
        PipeWireWindowCaptureSourceUpdater { core: SourceUpdaterCore::new(source) }
    }

    /// The updater's carried state.
    pub closed spec fn updater_core(self) -> SourceUpdaterCore {
        self.core
    }

    /// Queues a change of the cursor-capture flag.
    pub fn set_show_cursor(self, show: bool) -> (r: PipeWireWindowCaptureSourceUpdater)
        ensures
            r.updater_core().source_spec() == self.updater_core().source_spec(),
            r.updater_core().pending_spec().pending_view().last().0@ == "ShowCursor"@,
            r.updater_core().pending_spec().pending_view().last().1 == ObsValue::Boolean(show),
            r.updater_core().pending_spec().pending_view().len() == self.updater_core().pending_spec().pending_view().len() + 1,
    {
        PipeWireWindowCaptureSourceUpdater { core: self.core.queue_bool("ShowCursor", show) }
    }

    /// Applies the queued changes in one batch, signalling exactly one
    /// update on the source's settings.
    pub fn update(self, ctx: &mut ObsContext) -> (r: Result<(), ObsError>)
        requires
            old(ctx).wf(),
        ensures
            final(ctx).wf(),
            !old(ctx).alive() ==> (r == Err::<(), ObsError>(ObsError::ThreadFailure) && *final(ctx)
                == *old(ctx)),
            old(ctx).alive() && !is_source(
                old(ctx).core_view().objects_view(),
                self.updater_core().source_spec(),
            ) ==> (r == Err::<(), ObsError>(ObsError::SourceNotFound) && *final(ctx) == *old(ctx)),
            old(ctx).alive() && is_source(
                old(ctx).core_view().objects_view(),
                self.updater_core().source_spec(),
            ) && slot_of(
                old(ctx).core_view().objects_view(),
                self.updater_core().source_spec(),
            ).body->SourceBody_settings.update_signals() < u64::MAX ==> ({
                let pre_data = slot_of(
                    old(ctx).core_view().objects_view(),
                    self.updater_core().source_spec(),
                ).body->SourceBody_settings;
                let post_data = slot_of(
                    final(ctx).core_view().objects_view(),
                    self.updater_core().source_spec(),
                ).body->SourceBody_settings;
                &&& r == Ok::<(), ObsError>(())
                &&& forall|k: Seq<char>| #![auto] post_data.lookup(k) == (match kv_find_last(
                    self.updater_core().pending_spec().pending_view(),
                    k,
                ) {
                    Some(v) => Some(v),
                    None => pre_data.lookup(k),
                })
                &&& post_data.update_signals() == pre_data.update_signals() + 1
                &&& crate::engine::same_counts(old(ctx).core_view(), final(ctx).core_view())
                &&& final(ctx).alive()
            }),
    {
        self.core.update(ctx)
    }
}

impl PipeWireScreenCaptureSourceBuilder {
    /// A builder for a combined screen and window capture source.
    pub fn new(name: &str) -> (r: PipeWireScreenCaptureSourceBuilder)
        ensures
            r.builder_core().name_view() == name@,
            r.builder_core().builder_wf(),
            r.builder_core().can_set(),
    {
        PipeWireScreenCaptureSourceBuilder { core: SourceBuilderCore::new(name) }
    }

    /// Sets the restore token for reconnecting to an earlier session.
    pub fn set_restore_token(self, token: &str) -> (r: PipeWireScreenCaptureSourceBuilder)
        requires
            self.builder_core().can_set(),
            self.builder_core().builder_wf(),
        ensures
            r.builder_core().builder_wf(),
            r.builder_core().signal_count() == self.builder_core().signal_count() + 1,
            r.builder_core().name_view() == self.builder_core().name_view(),
            r.builder_core().setting_of("RestoreToken"@) matches Some(v) && v matches ObsValue::Text(t)
                && t@ == token@,
            forall|k: Seq<char>|
                k != "RestoreToken"@ ==> r.builder_core().setting_of(k)
                    == self.builder_core().setting_of(k),
    {
        PipeWireScreenCaptureSourceBuilder {
            core: self.core.set_string_value("RestoreToken", token),
        }
    }

    /// Chooses whether the cursor is captured.
    pub fn set_show_cursor(self, show: bool) -> (r: PipeWireScreenCaptureSourceBuilder)
        requires
            self.builder_core().can_set(),
            self.builder_core().builder_wf(),
        ensures
            r.builder_core().builder_wf(),
            r.builder_core().signal_count() == self.builder_core().signal_count() + 1,
            r.builder_core().name_view() == self.builder_core().name_view(),
            r.builder_core().setting_of("ShowCursor"@) == Some(ObsValue::Boolean(show)),
            forall|k: Seq<char>|
                k != "ShowCursor"@ ==> r.builder_core().setting_of(k)
                    == self.builder_core().setting_of(k),
    {
        PipeWireScreenCaptureSourceBuilder { core: self.core.set_bool_value("ShowCursor", show) }
    }
}

impl ObsSourceBuilderId for PipeWireScreenCaptureSourceBuilder {
    closed spec fn id_spec() -> Seq<char> {
        "pipewire-screen-capture-source"@
    }

    fn get_id() -> (r: ObsString) {
        ObsString::new("pipewire-screen-capture-source")
    }
}

impl ObsSourceBuilder for PipeWireScreenCaptureSourceBuilder {
    closed spec fn builder_core(self) -> SourceBuilderCore {
        self.core
    }

    fn into_core(self) -> (r: SourceBuilderCore) {
        self.core
    }

    fn get_name(&self) -> (r: ObsString) {
        self.core.name_obs()
    }
}

impl PipeWireScreenCaptureSourceUpdater {
    /// An updater for the given live source.
    pub fn new(source: &ObsSourceRef) -> (r: PipeWireScreenCaptureSourceUpdater)
        ensures
            r.updater_core().source_spec() == source.handle_spec(),
            r.updater_core().pending_spec().pending_view() == Seq::<(String, ObsValue)>::empty(),
    {
        PipeWireScreenCaptureSourceUpdater { core: SourceUpdaterCore::new(source) }
    }

    /// The updater's carried state.
    pub closed spec fn updater_core(self) -> SourceUpdaterCore {
        self.core
    }

    /// Queues a change of the cursor-capture flag.
    pub fn set_show_cursor(self, show: bool) -> (r: PipeWireScreenCaptureSourceUpdater)
        ensures
            r.updater_core().source_spec() == self.updater_core().source_spec(),
            r.updater_core().pending_spec().pending_view().last().0@ == "ShowCursor"@,
            r.updater_core().pending_spec().pending_view().last().1 == ObsValue::Boolean(show),
            r.updater_core().pending_spec().pending_view().len() == self.updater_core().pending_spec().pending_view().len() + 1,
    {
        PipeWireScreenCaptureSourceUpdater { core: self.core.queue_bool("ShowCursor", show) }
    }

    /// Applies the queued changes in one batch, signalling exactly one
    /// update on the source's settings.
    pub fn update(self, ctx: &mut ObsContext) -> (r: Result<(), ObsError>)
        requires
            old(ctx).wf(),
        ensures
            final(ctx).wf(),
            !old(ctx).alive() ==> (r == Err::<(), ObsError>(ObsError::ThreadFailure) && *final(ctx)
                == *old(ctx)),
            old(ctx).alive() && !is_source(
                old(ctx).core_view().objects_view(),
                self.updater_core().source_spec(),
            ) ==> (r == Err::<(), ObsError>(ObsError::SourceNotFound) && *final(ctx) == *old(ctx)),
            old(ctx).alive() && is_source(
                old(ctx).core_view().objects_view(),
                self.updater_core().source_spec(),
            ) && slot_of(
                old(ctx).core_view().objects_view(),
                self.updater_core().source_spec(),
            ).body->SourceBody_settings.update_signals() < u64::MAX ==> ({
                let pre_data = slot_of(
                    old(ctx).core_view().objects_view(),
                    self.updater_core().source_spec(),
                ).body->SourceBody_settings;
                let post_data = slot_of(
                    final(ctx).core_view().objects_view(),
                    self.updater_core().source_spec(),
                ).body->SourceBody_settings;
                &&& r == Ok::<(), ObsError>(())
                &&& forall|k: Seq<char>| #![auto] post_data.lookup(k) == (match kv_find_last(
                    self.updater_core().pending_spec().pending_view(),
                    k,
                ) {
                    Some(v) => Some(v),
                    None => pre_data.lookup(k),
                })
                &&& post_data.update_signals() == pre_data.update_signals() + 1
                &&& crate::engine::same_counts(old(ctx).core_view(), final(ctx).core_view())
                &&& final(ctx).alive()
            }),
    {
        self.core.update(ctx)
    }
}

impl PipeWireCameraSourceBuilder {
    /// A builder for a camera capture source with the given name.
    pub fn new(name: &str) -> (r: PipeWireCameraSourceBuilder)
        ensures
            r.builder_core().name_view() == name@,
            r.builder_core().builder_wf(),
            r.builder_core().can_set(),
    {
        PipeWireCameraSourceBuilder { core: SourceBuilderCore::new(name) }
    }

    /// Sets the camera device node, e.g. a video device path.
    pub fn set_camera_id(self, camera_id: &str) -> (r: PipeWireCameraSourceBuilder)
        requires
            self.builder_core().can_set(),
            self.builder_core().builder_wf(),
        ensures
            r.builder_core().builder_wf(),
            r.builder_core().signal_count() == self.builder_core().signal_count() + 1,
            r.builder_core().name_view() == self.builder_core().name_view(),
            r.builder_core().setting_of("camera_id"@) matches Some(v) && v matches ObsValue::Text(t)
                && t@ == camera_id@,
            forall|k: Seq<char>|
                k != "camera_id"@ ==> r.builder_core().setting_of(k)
                    == self.builder_core().setting_of(k),
    {
        PipeWireCameraSourceBuilder { core: self.core.set_string_value("camera_id", camera_id) }
    }

    /// Sets the video format, as a FOURCC string.
    pub fn set_video_format(self, video_format: &str) -> (r: PipeWireCameraSourceBuilder)
        requires
            self.builder_core().can_set(),
            self.builder_core().builder_wf(),
        ensures
            r.builder_core().builder_wf(),
            r.builder_core().signal_count() == self.builder_core().signal_count() + 1,
            r.builder_core().name_view() == self.builder_core().name_view(),
            r.builder_core().setting_of("video_format"@) matches Some(v) && v matches ObsValue::Text(t)
                && t@ == video_format@,
            forall|k: Seq<char>|
                k != "video_format"@ ==> r.builder_core().setting_of(k)
                    == self.builder_core().setting_of(k),
    {
        PipeWireCameraSourceBuilder { core: self.core.set_string_value("video_format", video_format) }
    }

    /// Sets the resolution, as the text form `width x height`.
    pub fn set_resolution(self, resolution: &str) -> (r: PipeWireCameraSourceBuilder)
        requires
            self.builder_core().can_set(),
            self.builder_core().builder_wf(),
        ensures
            r.builder_core().builder_wf(),
            r.builder_core().signal_count() == self.builder_core().signal_count() + 1,
            r.builder_core().name_view() == self.builder_core().name_view(),
            r.builder_core().setting_of("resolution"@) matches Some(v) && v matches ObsValue::Text(t)
                && t@ == resolution@,
            forall|k: Seq<char>|
                k != "resolution"@ ==> r.builder_core().setting_of(k)
                    == self.builder_core().setting_of(k),
    {
        PipeWireCameraSourceBuilder { core: self.core.set_string_value("resolution", resolution) }
    }

    /// Sets the framerate, as the text form `numerator/denominator`.
    pub fn set_framerate(self, framerate: &str) -> (r: PipeWireCameraSourceBuilder)
        requires
            self.builder_core().can_set(),
            self.builder_core().builder_wf(),
        ensures
            r.builder_core().builder_wf(),
            r.builder_core().signal_count() == self.builder_core().signal_count() + 1,
            r.builder_core().name_view() == self.builder_core().name_view(),
            r.builder_core().setting_of("framerate"@) matches Some(v) && v matches ObsValue::Text(t)
                && t@ == framerate@,
            forall|k: Seq<char>|
                k != "framerate"@ ==> r.builder_core().setting_of(k)
                    == self.builder_core().setting_of(k),
    {
        PipeWireCameraSourceBuilder { core: self.core.set_string_value("framerate", framerate) }
    }

    /// Sets the resolution from width and height values, rendered as
    /// decimal text joined by `x`.
    pub fn set_resolution_values(self, width: u32, height: u32) -> (r: PipeWireCameraSourceBuilder)
        requires
            self.builder_core().can_set(),
            self.builder_core().builder_wf(),
        ensures
            r.builder_core().builder_wf(),
            r.builder_core().signal_count() == self.builder_core().signal_count() + 1,
            r.builder_core().name_view() == self.builder_core().name_view(),
            r.builder_core().setting_of("resolution"@) matches Some(v) && v matches ObsValue::Text(t)
                && t@ == dec_str(width as int) + "x"@ + dec_str(height as int),
            forall|k: Seq<char>|
                k != "resolution"@ ==> r.builder_core().setting_of(k)
                    == self.builder_core().setting_of(k),
    {
        let mut text = u32_to_string(width);
        proof {
            reveal_strlit("x");
        }
        text.append("x");
        let h = u32_to_string(height);
        text.append(h.as_str());
        PipeWireCameraSourceBuilder { core: self.core.set_string_value("resolution", text.as_str()) }
    }

    /// Sets the framerate from numerator and denominator values, rendered
    /// as decimal text joined by `/`.
    pub fn set_framerate_values(self, num: u32, den: u32) -> (r: PipeWireCameraSourceBuilder)
        requires
            self.builder_core().can_set(),
            self.builder_core().builder_wf(),
        ensures
            r.builder_core().builder_wf(),
            r.builder_core().signal_count() == self.builder_core().signal_count() + 1,
            r.builder_core().name_view() == self.builder_core().name_view(),
            r.builder_core().setting_of("framerate"@) matches Some(v) && v matches ObsValue::Text(t)
                && t@ == dec_str(num as int) + "/"@ + dec_str(den as int),
            forall|k: Seq<char>|
                k != "framerate"@ ==> r.builder_core().setting_of(k)
                    == self.builder_core().setting_of(k),
    {
        let mut text = u32_to_string(num);
        proof {
            reveal_strlit("/");
        }
        text.append("/");
        let d = u32_to_string(den);
        text.append(d.as_str());
        PipeWireCameraSourceBuilder { core: self.core.set_string_value("framerate", text.as_str()) }
    }
}

impl ObsSourceBuilderId for PipeWireCameraSourceBuilder {
    closed spec fn id_spec() -> Seq<char> {
        "pipewire-camera-source"@
    }

    fn get_id() -> (r: ObsString) {
        ObsString::new("pipewire-camera-source")
    }
}

impl ObsSourceBuilder for PipeWireCameraSourceBuilder {
    closed spec fn builder_core(self) -> SourceBuilderCore {
        self.core
    }

    fn into_core(self) -> (r: SourceBuilderCore) {
        self.core
    }

    fn get_name(&self) -> (r: ObsString) {
        self.core.name_obs()
    }
}

/// Extra methods for live PipeWire capture sources.
pub trait PipeWireSourceExtTrait {
    /// The native handle of the source the token is read from.
    spec fn token_source_handle(&self) -> usize;

    /// The type id of the source the token is read from.
    spec fn token_source_id(&self) -> Seq<char>;

    /// Reads the restore token of a PipeWire capture source: the token the
    /// portal hands out once the user has picked a screen or window.
    /// Refused with `InvalidOperation` on sources of any other type, and
    /// with `SourceNotFound` when the handle no longer names a live source;
    /// otherwise the stored token comes back, `None` while the portal has
    /// not handed one out yet.
    fn get_restore_token(&self, ctx: &ObsContext) -> (r: Result<Option<String>, ObsError>)
        requires
            ctx.wf(),
        ensures
            ({
                let pw = self.token_source_id() == "pipewire-desktop-capture-source"@
                    || self.token_source_id() == "pipewire-window-capture-source"@
                    || self.token_source_id() == "pipewire-screen-capture-source"@;
                &&& !pw ==> (r matches Err(e) && e is InvalidOperation)
                &&& pw && !is_source(ctx.core_view().objects_view(), self.token_source_handle())
                    ==> r == Err::<Option<String>, ObsError>(ObsError::SourceNotFound)
                &&& pw && is_source(ctx.core_view().objects_view(), self.token_source_handle())
                    ==> (match slot_of(
                    ctx.core_view().objects_view(),
                    self.token_source_handle(),
                ).body->SourceBody_settings.lookup("RestoreToken"@) {
                    None => r == Ok::<Option<String>, ObsError>(None),
                    Some(v) => match v {
                        ObsValue::Text(t) => r matches Ok(o) && o matches Some(txt) && txt@ == t@,
                        _ => r == Err::<Option<String>, ObsError>(ObsError::StringConversionError),
                    },
                })
            }),
    ;
}

impl PipeWireSourceExtTrait for ObsSourceRef {
    closed spec fn token_source_handle(&self) -> usize {
        self.handle_spec()
    }

    closed spec fn token_source_id(&self) -> Seq<char> {
        self.id_view()
    }

    fn get_restore_token(&self, ctx: &ObsContext) -> (r: Result<Option<String>, ObsError>) {
        let id = self.id();
        let id_str = id.as_str();
        let is_pipewire = str_eq(id_str, "pipewire-desktop-capture-source") || str_eq(
            id_str,
            "pipewire-window-capture-source",
        ) || str_eq(id_str, "pipewire-screen-capture-source");
        if !is_pipewire {
            return Err(ObsError::InvalidOperation(
                "the source is not a PipeWire capture source".to_owned(),
            ));
        }
        if !ctx.source_exists(self.raw_handle()) {
            return Err(ObsError::SourceNotFound);
        }
        ctx.source_setting_string(self.raw_handle(), "RestoreToken")
    }
}

} // verus!
