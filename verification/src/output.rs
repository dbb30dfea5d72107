//! Output references: recordings, streams and replay buffers, with the
//! start/stop/pause protocol and on-demand saving of the replay buffer.

use vstd::prelude::*;

use crate::context::ObsContext;
use crate::data::ObsData;
use crate::engine::is_output;
use crate::engine::release_rel;
use crate::engine::slot_of;
use crate::engine::unchanged;
use crate::engine::EngineCore;
use crate::error::ObsError;
use crate::runtime::NativeRequest;
use crate::runtime::NativeResponse;
use crate::sources::ObjectInfo;
use crate::utils::NativeHandle;
use crate::utils::ObsObjectKind;
use crate::utils::ObsString;

verus! {

/// The type id of outputs that keep a rolling recording and can save it
/// on demand.
pub open spec fn replay_buffer_id() -> Seq<char> {
    "replay_buffer"@
}

/// Functionality specific to replay-buffer outputs: saving the rolling
/// recording to disk on demand.
pub trait ReplayBufferOutput {
    /// The native handle of the output the buffer is saved from.
    spec fn output_handle(&self) -> usize;

    /// Saves the current replay buffer content and hands back the path of
    /// the saved file.  Refused outright on anything but a live output of
    /// type `replay_buffer`, with no native procedure call made.
    fn save_buffer(&self, ctx: &mut ObsContext) -> (r: Result<String, ObsError>)
        requires
            old(ctx).wf(),
        ensures
            final(ctx).wf(),
            !is_output(old(ctx).core_view().objects_view(), self.output_handle()) ==> (r matches Err(e) && e is OutputSaveBufferFailure && *final(ctx) == *old(ctx)),
            is_output(old(ctx).core_view().objects_view(), self.output_handle()) && old(ctx).core_view().procs() + 2 > u64::MAX ==> (r matches Err(e) && e
                is OutputSaveBufferFailure && *final(ctx) == *old(ctx)),
            is_output(old(ctx).core_view().objects_view(), self.output_handle()) && old(ctx).core_view().procs() + 2 <= u64::MAX && !old(ctx).alive() ==> (r == Err::<String, ObsError>(ObsError::ThreadFailure) && *final(ctx) == *old(ctx)),
            is_output(old(ctx).core_view().objects_view(), self.output_handle()) && old(ctx).core_view().procs() + 2 <= u64::MAX && old(ctx).alive() && slot_of(
                old(ctx).core_view().objects_view(),
                self.output_handle(),
            ).body->OutputBody_id@ != replay_buffer_id() ==> (r matches Err(e) && e
                is OutputSaveBufferFailure) && *final(ctx) == *old(ctx),
            is_output(old(ctx).core_view().objects_view(), self.output_handle()) && old(ctx).core_view().procs() + 2 <= u64::MAX && old(ctx).alive() && slot_of(
                old(ctx).core_view().objects_view(),
                self.output_handle(),
            ).body->OutputBody_id@ == replay_buffer_id() ==> final(ctx).alive()
                && crate::engine::same_objects(old(ctx).core_view(), final(ctx).core_view())
                && crate::engine::same_registry(old(ctx).core_view(), final(ctx).core_view())
                && crate::engine::same_counts(old(ctx).core_view(), final(ctx).core_view())
                && crate::engine::same_channels(old(ctx).core_view(), final(ctx).core_view())
                && ({
                let slot = slot_of(old(ctx).core_view().objects_view(), self.output_handle());
                if !slot.body->OutputBody_active {
                    (r matches Err(e) && e is OutputSaveBufferFailure) && final(ctx).core_view().procs() == old(ctx).core_view().procs() + 1
                } else {
                    match slot.body->OutputBody_replay_path {
                        Some(p) => (r matches Ok(text) && text@ == p@) && final(ctx).core_view().procs() == old(ctx).core_view().procs() + 2,
                        None => (r matches Err(e) && e is OutputSaveBufferFailure) && final(ctx).core_view().procs() == old(ctx).core_view().procs() + 2,
                    }
                }
            }),
    ;
}

/// A reference to a live output.
pub struct ObsOutputRef {
    pub(crate) handle: usize,
    pub(crate) id: ObsString,
    pub(crate) name: ObsString,
}

impl ObsOutputRef {
    /// The native handle this reference names.
    pub closed spec fn handle_spec(self) -> usize {
        self.handle
    }

    /// The output's type id.
    pub closed spec fn id_view(self) -> Seq<char> {
        self.id@
    }

    /// The output's name.
    pub closed spec fn name_view(self) -> Seq<char> {
        self.name@
    }

    /// The reference names a live output of the engine.
    pub open spec fn valid(self, core: EngineCore) -> bool {
        is_output(core.objects_view(), self.handle_spec())
    }

    /// The output's type id.
    pub fn id(&self) -> (r: ObsString)
        ensures
            r@ == self.id_view(),
    {
        ObsString::from_string(self.id.to_text())
    }

    /// The output's name.
    pub fn name(&self) -> (r: ObsString)
        ensures
            r@ == self.name_view(),
    {
        ObsString::from_string(self.name.to_text())
    }

    /// The tagged native handle.
    pub fn as_ptr(&self) -> (r: NativeHandle)
        ensures
            r == (NativeHandle { raw: self.handle_spec(), kind: ObsObjectKind::Output }),
    {
        NativeHandle { raw: self.handle, kind: ObsObjectKind::Output }
    }

    /// Starts the output.  Fails with `OutputAlreadyActive` exactly when
    /// it is already running.
    pub fn start(&self, ctx: &mut ObsContext) -> (r: Result<(), ObsError>)
        requires
            old(ctx).wf(),
            self.valid(old(ctx).core_view()),
        ensures
            final(ctx).wf(),
            !old(ctx).alive() ==> (r == Err::<(), ObsError>(ObsError::ThreadFailure) && *final(ctx)
                == *old(ctx)),
            old(ctx).alive() ==> final(ctx).alive() && ({
                let was_active = slot_of(
                    old(ctx).core_view().objects_view(),
                    self.handle_spec(),
                ).body->OutputBody_active;
                if was_active {
                    r == Err::<(), ObsError>(ObsError::OutputAlreadyActive) && unchanged(
                        old(ctx).core_view(),
                        final(ctx).core_view(),
                    )
                } else {
                    &&& r == Ok::<(), ObsError>(())
                    &&& slot_of(
                        final(ctx).core_view().objects_view(),
                        self.handle_spec(),
                    ).body->OutputBody_active
                    &&& !slot_of(
                        final(ctx).core_view().objects_view(),
                        self.handle_spec(),
                    ).body->OutputBody_paused
                    &&& crate::engine::same_registry(old(ctx).core_view(), final(ctx).core_view())
                    &&& crate::engine::same_counts(old(ctx).core_view(), final(ctx).core_view())
                    &&& crate::engine::same_procs(old(ctx).core_view(), final(ctx).core_view())
                }
            }),
    {
        if !ctx.is_alive() {
            return Err(ObsError::ThreadFailure);
        }
        let ghost pre = ctx.core_view();
        let active = match ctx.dispatch(NativeRequest::OutputGetFlags { output: self.handle }) {
            Ok(NativeResponse::Flags(a, _p)) => a,
            Ok(_) => false,
            Err(e) => {
                return Err(e);
            },
        };
        if active {
            return Err(ObsError::OutputAlreadyActive);
        }
        match ctx.dispatch(NativeRequest::OutputSetFlags {
            output: self.handle,
            active: true,
            paused: false,
        }) {
            Ok(_) => {
                proof {
                    let sl = slot_of(pre.objects_view(), self.handle_spec());
                    let s2 = crate::engine::ObjectSlot {
                        shares: sl.shares,
                        body: crate::engine::ObjectBody::OutputBody {
                            id: sl.body->OutputBody_id,
                            name: sl.body->OutputBody_name,
                            settings: sl.body->OutputBody_settings,
                            active: true,
                            paused: false,
                            replay_path: sl.body->OutputBody_replay_path,
                        },
                    };
                    crate::engine::lemma_update_slot(pre.objects_view(), self.handle_spec(), s2);
                }
                Ok(())
            },
            Err(e) => Err(e),
        }
    }

    /// Stops the output.  Fails with `OutputStopFailure` exactly when it
    /// is not running.
    pub fn stop(&self, ctx: &mut ObsContext) -> (r: Result<(), ObsError>)
        requires
            old(ctx).wf(),
            self.valid(old(ctx).core_view()),
        ensures
            final(ctx).wf(),
            !old(ctx).alive() ==> (r == Err::<(), ObsError>(ObsError::ThreadFailure) && *final(ctx)
                == *old(ctx)),
            old(ctx).alive() ==> final(ctx).alive() && ({
                let was_active = slot_of(
                    old(ctx).core_view().objects_view(),
                    self.handle_spec(),
                ).body->OutputBody_active;
                if !was_active {
                    (r matches Err(e) && e is OutputStopFailure) && unchanged(
                        old(ctx).core_view(),
                        final(ctx).core_view(),
                    )
                } else {
                    &&& r == Ok::<(), ObsError>(())
                    &&& !slot_of(
                        final(ctx).core_view().objects_view(),
                        self.handle_spec(),
                    ).body->OutputBody_active
                    &&& !slot_of(
                        final(ctx).core_view().objects_view(),
                        self.handle_spec(),
                    ).body->OutputBody_paused
                    &&& crate::engine::same_registry(old(ctx).core_view(), final(ctx).core_view())
                    &&& crate::engine::same_counts(old(ctx).core_view(), final(ctx).core_view())
                    &&& crate::engine::same_procs(old(ctx).core_view(), final(ctx).core_view())
                }
            }),
    {
        if !ctx.is_alive() {
            return Err(ObsError::ThreadFailure);
        }
        let ghost pre = ctx.core_view();
        let active = match ctx.dispatch(NativeRequest::OutputGetFlags { output: self.handle }) {
            Ok(NativeResponse::Flags(a, _p)) => a,
            Ok(_) => false,
            Err(e) => {
                return Err(e);
            },
        };
        if !active {
            return Err(ObsError::OutputStopFailure(None));
        }
        match ctx.dispatch(NativeRequest::OutputSetFlags {
            output: self.handle,
            active: false,
            paused: false,
        }) {
            Ok(_) => {
                proof {
                    let sl = slot_of(pre.objects_view(), self.handle_spec());
                    let s2 = crate::engine::ObjectSlot {
                        shares: sl.shares,
                        body: crate::engine::ObjectBody::OutputBody {
                            id: sl.body->OutputBody_id,
                            name: sl.body->OutputBody_name,
                            settings: sl.body->OutputBody_settings,
                            active: false,
                            paused: false,
                            replay_path: sl.body->OutputBody_replay_path,
                        },
                    };
                    crate::engine::lemma_update_slot(pre.objects_view(), self.handle_spec(), s2);
                }
                Ok(())
            },
            Err(e) => Err(e),
        }
    }

    /// Pauses or resumes a running output.  Fails with `InvalidOperation`
    /// exactly when the output is not running.
    pub fn pause(&self, ctx: &mut ObsContext, paused: bool) -> (r: Result<(), ObsError>)
        requires
            old(ctx).wf(),
            self.valid(old(ctx).core_view()),
        ensures
            final(ctx).wf(),
            !old(ctx).alive() ==> (r == Err::<(), ObsError>(ObsError::ThreadFailure) && *final(ctx)
                == *old(ctx)),
            old(ctx).alive() ==> final(ctx).alive() && ({
                let was_active = slot_of(
                    old(ctx).core_view().objects_view(),
                    self.handle_spec(),
                ).body->OutputBody_active;
                if !was_active {
                    (r matches Err(e) && e is InvalidOperation) && unchanged(
                        old(ctx).core_view(),
                        final(ctx).core_view(),
                    )
                } else {
                    &&& r == Ok::<(), ObsError>(())
                    &&& slot_of(
                        final(ctx).core_view().objects_view(),
                        self.handle_spec(),
                    ).body->OutputBody_active
                    &&& slot_of(
                        final(ctx).core_view().objects_view(),
                        self.handle_spec(),
                    ).body->OutputBody_paused == paused
                    &&& crate::engine::same_registry(old(ctx).core_view(), final(ctx).core_view())
                    &&& crate::engine::same_counts(old(ctx).core_view(), final(ctx).core_view())
                    &&& crate::engine::same_procs(old(ctx).core_view(), final(ctx).core_view())
                }
            }),
    {
        if !ctx.is_alive() {
            return Err(ObsError::ThreadFailure);
        }
        let ghost pre = ctx.core_view();
        let active = match ctx.dispatch(NativeRequest::OutputGetFlags { output: self.handle }) {
            Ok(NativeResponse::Flags(a, _p)) => a,
            Ok(_) => false,
            Err(e) => {
                return Err(e);
            },
        };
        if !active {
            return Err(ObsError::InvalidOperation("output is not active".to_owned()));
        }
        match ctx.dispatch(NativeRequest::OutputSetFlags {
            output: self.handle,
            active: true,
            paused,
        }) {
            Ok(_) => {
                proof {
                    let sl = slot_of(pre.objects_view(), self.handle_spec());
                    let s2 = crate::engine::ObjectSlot {
                        shares: sl.shares,
                        body: crate::engine::ObjectBody::OutputBody {
                            id: sl.body->OutputBody_id,
                            name: sl.body->OutputBody_name,
                            settings: sl.body->OutputBody_settings,
                            active: true,
                            paused,
                            replay_path: sl.body->OutputBody_replay_path,
                        },
                    };
                    crate::engine::lemma_update_slot(pre.objects_view(), self.handle_spec(), s2);
                }
                Ok(())
            },
            Err(e) => Err(e),
        }
    }

    /// Feeds in the path of a replay file the native recorder finished
    /// writing; the platform layer calls this when the saved signal fires.
    pub fn notify_replay_saved(&self, ctx: &mut ObsContext, path: &str) -> (r: Result<(), ObsError>)
        requires
            old(ctx).wf(),
            self.valid(old(ctx).core_view()),
        ensures
            final(ctx).wf(),
            !old(ctx).alive() ==> (r == Err::<(), ObsError>(ObsError::ThreadFailure) && *final(ctx)
                == *old(ctx)),
            old(ctx).alive() ==> ({
                &&& r == Ok::<(), ObsError>(())
                &&& final(ctx).alive()
                &&& slot_of(
                    final(ctx).core_view().objects_view(),
                    self.handle_spec(),
                ).body->OutputBody_replay_path matches Some(p) && p@ == path@
                &&& crate::engine::same_counts(old(ctx).core_view(), final(ctx).core_view())
                &&& crate::engine::same_procs(old(ctx).core_view(), final(ctx).core_view())
                &&& crate::engine::same_registry(old(ctx).core_view(), final(ctx).core_view())
            }),
    {
        if !ctx.is_alive() {
            return Err(ObsError::ThreadFailure);
        }
        let ghost pre = ctx.core_view();
        let owned = path.to_owned();
        ctx.set_replay_path(self.handle, owned);
        proof {
            let sl = slot_of(pre.objects_view(), self.handle_spec());
            let s2 = crate::engine::ObjectSlot {
                shares: sl.shares,
                body: crate::engine::ObjectBody::OutputBody {
                    id: sl.body->OutputBody_id,
                    name: sl.body->OutputBody_name,
                    settings: sl.body->OutputBody_settings,
                    active: sl.body->OutputBody_active,
                    paused: sl.body->OutputBody_paused,
                    replay_path: Some(owned),
                },
            };
            crate::engine::lemma_update_slot(pre.objects_view(), self.handle_spec(), s2);
        }
        Ok(())
    }

    /// Saves the replay buffer: refused outright, with no native procedure
    /// call, unless this output's type is `replay_buffer`; then the native
    /// `save` procedure runs (failing on an inactive output), and the path
    /// of the last saved replay is fetched and handed back.
    pub fn save_buffer(&self, ctx: &mut ObsContext) -> (r: Result<String, ObsError>)
        requires
            old(ctx).wf(),
            self.valid(old(ctx).core_view()),
            old(ctx).core_view().procs() + 2 <= u64::MAX,
        ensures
            final(ctx).wf(),
            !old(ctx).alive() ==> (r == Err::<String, ObsError>(ObsError::ThreadFailure)
                && *final(ctx) == *old(ctx)),
            old(ctx).alive() && slot_of(
                old(ctx).core_view().objects_view(),
                self.handle_spec(),
            ).body->OutputBody_id@ != replay_buffer_id() ==> (r matches Err(e) && e
                is OutputSaveBufferFailure) && *final(ctx) == *old(ctx),
            old(ctx).alive() && slot_of(
                old(ctx).core_view().objects_view(),
                self.handle_spec(),
            ).body->OutputBody_id@ == replay_buffer_id() ==> final(ctx).alive()
                && crate::engine::same_objects(old(ctx).core_view(), final(ctx).core_view())
                && crate::engine::same_registry(old(ctx).core_view(), final(ctx).core_view())
                && crate::engine::same_counts(old(ctx).core_view(), final(ctx).core_view())
                && crate::engine::same_channels(old(ctx).core_view(), final(ctx).core_view())
                && ({
                let slot = slot_of(old(ctx).core_view().objects_view(), self.handle_spec());
                if !slot.body->OutputBody_active {
                    (r matches Err(e) && e is OutputSaveBufferFailure) && final(ctx).core_view().procs() == old(ctx).core_view().procs() + 1
                } else {
                    match slot.body->OutputBody_replay_path {
                        Some(p) => (r matches Ok(s) && s@ == p@) && final(ctx).core_view().procs()
                            == old(ctx).core_view().procs() + 2,
                        None => (r matches Err(e) && e is OutputSaveBufferFailure) && final(ctx).core_view().procs() == old(ctx).core_view().procs() + 2,
                    }
                }
            }),
    {
        if !ctx.is_alive() {
            return Err(ObsError::ThreadFailure);
        }
        if !ctx.output_id_is(self.handle, "replay_buffer") {
            return Err(ObsError::OutputSaveBufferFailure(
                "output is not a replay buffer output".to_owned(),
            ));
        }
        let taken = match ctx.dispatch(NativeRequest::ProcSave { output: self.handle }) {
            Ok(NativeResponse::Flag(b)) => b,
            Ok(_) => false,
            Err(e) => {
                return Err(e);
            },
        };
        if !taken {
            return Err(ObsError::OutputSaveBufferFailure("the save call failed".to_owned()));
        }
        let path = match ctx.dispatch(NativeRequest::ProcLastReplay { output: self.handle }) {
            Ok(NativeResponse::MaybeText(p)) => p,
            Ok(_) => None,
            Err(e) => {
                return Err(e);
            },
        };
        match path {
            Some(p) => Ok(p),
            None => Err(ObsError::OutputSaveBufferFailure(
                "no saved replay path was available".to_owned(),
            )),
        }
    }

    /// Drops this output reference; the last drop releases the native
    /// output.
    pub fn release(self, ctx: &mut ObsContext) -> (r: Result<(), ObsError>)
        requires
            old(ctx).wf(),
            self.valid(old(ctx).core_view()),
        ensures
            final(ctx).wf(),
            !old(ctx).alive() ==> (r == Err::<(), ObsError>(ObsError::ThreadFailure) && *final(ctx)
                == *old(ctx)),
            old(ctx).alive() ==> r == Ok::<(), ObsError>(()) && release_rel(
                old(ctx).core_view(),
                self.handle_spec(),
                final(ctx).core_view(),
            ) && final(ctx).alive(),
    {
        ctx.release_handle(self.handle)
    }
}

impl ReplayBufferOutput for ObsOutputRef {
    closed spec fn output_handle(&self) -> usize {
        self.handle_spec()
    }

    fn save_buffer(&self, ctx: &mut ObsContext) -> Result<String, ObsError> {
        if !ctx.output_exists(self.handle) {
            return Err(ObsError::OutputSaveBufferFailure(
                "the reference no longer names a live output".to_owned(),
            ));
        }
        if ctx.proc_calls() >= u64::MAX - 1 {
            return Err(ObsError::OutputSaveBufferFailure(
                "the procedure counter is saturated".to_owned(),
            ));
        }
        ObsOutputRef::save_buffer(self, ctx)
    }
}

impl ObsContext {
    /// Creates an output object.
    pub fn output(&mut self, info: ObjectInfo) -> (r: Result<ObsOutputRef, ObsError>)
        requires
            old(self).wf(),
        ensures
            final(self).wf(),
            !old(self).alive() ==> (r == Err::<ObsOutputRef, ObsError>(ObsError::ThreadFailure)
                && *final(self) == *old(self)),
            old(self).alive() ==> (r is Err <==> old(self).core_view().objects_view().len()
                == usize::MAX),
            old(self).alive() ==> match r {
                Ok(out) => {
                    &&& out.valid(final(self).core_view())
                    &&& out.id_view() == info.id@
                    &&& out.name_view() == info.name@
                    &&& slot_of(
                        final(self).core_view().objects_view(),
                        out.handle_spec(),
                    ).body->OutputBody_id@ == info.id@
                    &&& !slot_of(
                        final(self).core_view().objects_view(),
                        out.handle_spec(),
                    ).body->OutputBody_active
                    &&& slot_of(
                        final(self).core_view().objects_view(),
                        out.handle_spec(),
                    ).body->OutputBody_replay_path is None
                    &&& final(self).core_view().retains() == old(self).core_view().retains() + 1
                    &&& final(self).core_view().releases() == old(self).core_view().releases()
                    &&& final(self).alive()
                },
                Err(e) => e is NullPointer && unchanged(
                    old(self).core_view(),
                    final(self).core_view(),
                ) && final(self).alive(),
            },
    {
        if !self.is_alive() {
            return Err(ObsError::ThreadFailure);
        }
        let ref_id = ObsString::from_string(info.id.to_text());
        let ref_name = ObsString::from_string(info.name.to_text());
        let settings = match info.settings {
            Some(d) => d,
            None => ObsData::new(),
        };
        match self.dispatch(NativeRequest::CreateOutput {
            id: info.id.into_text(),
            name: info.name.into_text(),
            settings,
        }) {
            Ok(NativeResponse::Handle(h)) => Ok(ObsOutputRef {
                handle: h,
                id: ref_id,
                name: ref_name,
            }),
            Ok(_) => Err(ObsError::NullPointer),
            Err(e) => Err(e),
        }
    }
}

} // verus!
