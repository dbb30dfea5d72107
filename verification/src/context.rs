//! The engine context: process-wide startup and shutdown, the video
//! descriptor, and the door every native request passes through.
//!
//! At most one engine instance may be initialized per process.  That flag
//! is explicit state, `ObsProcessState`: the platform layer keeps the one
//! process-wide value (behind its global mutex) and passes it in, so the
//! one-instance rule is verified rather than hidden in a static.

use vstd::prelude::*;

use crate::data::ObsData;
use crate::data::ObsValue;
use crate::data::kv_find;
use crate::engine::live_count;
use crate::engine::EngineCore;
use crate::error::ObsError;
use crate::graphics::ObsVideoInfo;
use crate::modules::ObsModules;
use crate::modules::StartupPaths;
use crate::runtime::dispatch_rel;
use crate::runtime::req_valid;
use crate::runtime::NativeRequest;
use crate::runtime::NativeResponse;
use crate::runtime::ObsRuntime;

verus! {

/// The process-wide engine flag: whether an engine instance is running in
/// this process.
pub struct ObsProcessState {
    engine_running: bool,
}

impl ObsProcessState {
    /// Whether an engine instance is running.
    pub closed spec fn running(self) -> bool {
        self.engine_running
    }

    /// The state of a process that has not started the engine.
    pub fn new() -> (r: ObsProcessState)
        ensures
            !r.running(),
    {
        ObsProcessState { engine_running: false }
    }

    /// Whether an engine instance is running.
    pub fn is_running(&self) -> (r: bool)
        ensures
            r == self.running(),
    {
        self.engine_running
    }
}

/// One step of the startup sequence; shutdown walks them in reverse.
#[derive(Clone, Copy, Debug, PartialEq, Eq, Structural)]
pub enum StartupStep {
    /// Register the data and module search paths.
    AddDataPaths,
    /// Load all plugin modules.
    LoadModules,
    /// Initialize the video subsystem.
    InitVideo,
    /// Initialize the audio subsystem.
    InitAudio,
}

/// Everything startup needs: the search paths, the video descriptor, the
/// worker thread's identity, and what the platform layer learned about the
/// engine build.
pub struct StartupInfo {
    pub startup_paths: StartupPaths,
    pub video: ObsVideoInfo,
    pub worker_thread: u64,
    pub obs_version_major: u32,
    pub has_disabled_module_fn: bool,
    pub module_failures: Vec<String>,
}

/// What working the non-blocking drop queue off does: the queue is walked
/// front to back; a handle that, at its turn, names a live counted object
/// with a reference left takes exactly one release, and a stale handle is
/// skipped.  `released` counts the releases issued.
pub open spec fn drops_flushed(
    pre: EngineCore,
    queue: Seq<usize>,
    post: EngineCore,
    released: int,
) -> bool
    decreases queue.len(),
{
    if queue.len() == 0 {
        post == pre && released == 0
    } else {
        let h = queue[0];
        if crate::engine::live(pre.objects_view(), h) && crate::engine::counted(
            crate::engine::slot_of(pre.objects_view(), h).body,
        ) && crate::engine::slot_of(pre.objects_view(), h).shares >= 1 {
            exists|mid: EngineCore|
                #![auto]
                mid.wf() && crate::engine::release_rel(pre, h, mid) && drops_flushed(
                    mid,
                    queue.skip(1),
                    post,
                    released - 1,
                )
        } else {
            drops_flushed(pre, queue.skip(1), post, released)
        }
    }
}

/// A running engine instance: the affinity runtime, the modeled engine
/// state, the loaded modules, and the recorded startup order.
pub struct ObsContext {
    pub(crate) runtime: ObsRuntime,
    pub(crate) core: EngineCore,
    pub(crate) modules: ObsModules,
    pub(crate) startup_steps: Vec<StartupStep>,
    pub(crate) deferred_drops: Vec<usize>,
}

impl ObsContext {
    /// The modeled engine state.
    pub closed spec fn core_view(self) -> EngineCore {
        self.core
    }

    /// Whether the worker thread still serves requests.
    pub closed spec fn alive(self) -> bool {
        self.runtime.is_alive()
    }

    /// The worker thread's identity.
    pub closed spec fn worker(self) -> u64 {
        self.runtime.worker()
    }

    /// The recorded startup order.
    pub closed spec fn steps_view(self) -> Seq<StartupStep> {
        self.startup_steps@
    }

    /// The loaded-modules record.
    pub closed spec fn modules_spec(self) -> ObsModules {
        self.modules
    }

    /// How many requests sit unanswered in the runtime queue.
    pub closed spec fn queue_len(self) -> nat {
        self.runtime.pending_view().len()
    }

    /// The handles waiting in the non-blocking drop queue.
    pub closed spec fn deferred_view(self) -> Seq<usize> {
        self.deferred_drops@
    }

    /// A context is well-formed when its engine state is and no request
    /// sits unanswered in the queue.
    pub open spec fn wf(self) -> bool {
        self.core_view().wf() && self.queue_len() == 0
    }

    /// Starts the engine: refuses when an instance already runs, else
    /// registers paths, loads modules, and initializes video and audio, in
    /// that order.
    pub fn start(state: &mut ObsProcessState, info: StartupInfo) -> (r: Result<ObsContext, ObsError>)
        ensures
            old(state).running() ==> (r matches Err(e) && e is ThreadFailure && *final(state)
                == *old(state)),
            !old(state).running() ==> ({
                &&& final(state).running()
                &&& r matches Ok(ctx)
                &&& ctx.wf()
                &&& ctx.alive()
                &&& ctx.worker() == info.worker_thread
                &&& ctx.core_view().objects_view().len() == 0
                &&& ctx.core_view().atts_view().len() == 0
                &&& ctx.core_view().retains() == 0
                &&& ctx.core_view().releases() == 0
                &&& ctx.core_view().procs() == 0
                &&& ctx.core_view().video_view() == info.video
                &&& forall|c: int| 0 <= c < 64 ==> ctx.core_view().channels_view()[c] == 0
                &&& ctx.steps_view() == seq![
                    StartupStep::AddDataPaths,
                    StartupStep::LoadModules,
                    StartupStep::InitVideo,
                    StartupStep::InitAudio,
                ]
                &&& ctx.modules_spec().loaded_spec()
                &&& ctx.modules_spec().failed_view() == info.module_failures@
            }),
    {
        if state.engine_running {
            return Err(ObsError::ThreadFailure);
        }
        state.engine_running = true;
        let mut steps: Vec<StartupStep> = Vec::new();
        steps.push(StartupStep::AddDataPaths);
        let mut modules = ObsModules::add_paths(
            info.startup_paths,
            info.obs_version_major,
            info.has_disabled_module_fn,
        );
        steps.push(StartupStep::LoadModules);
        modules.load_modules(info.module_failures);
        steps.push(StartupStep::InitVideo);
        let core = EngineCore::new(info.video);
        steps.push(StartupStep::InitAudio);
        let ctx = ObsContext {
            runtime: ObsRuntime::bind(info.worker_thread),
            core,
            modules,
            startup_steps: steps,
            deferred_drops: Vec::new(),
        };
        proof {
            assert(ctx.steps_view() =~= seq![
                StartupStep::AddDataPaths,
                StartupStep::LoadModules,
                StartupStep::InitVideo,
                StartupStep::InitAudio,
            ]);
        }
        Ok(ctx)
    }

    /// Shuts the engine down, in strict reverse of the startup order, and
    /// clears the process-wide flag.  Returns the performed teardown
    /// order.
    pub fn shutdown(self, state: &mut ObsProcessState) -> (steps: Vec<StartupStep>)
        ensures
            !final(state).running(),
            steps@ == seq![
                StartupStep::InitAudio,
                StartupStep::InitVideo,
                StartupStep::LoadModules,
                StartupStep::AddDataPaths,
            ],
    {
        state.engine_running = false;
        let mut steps: Vec<StartupStep> = Vec::new();
        steps.push(StartupStep::InitAudio);
        steps.push(StartupStep::InitVideo);
        steps.push(StartupStep::LoadModules);
        steps.push(StartupStep::AddDataPaths);
        proof {
            assert(steps@ =~= seq![
                StartupStep::InitAudio,
                StartupStep::InitVideo,
                StartupStep::LoadModules,
                StartupStep::AddDataPaths,
            ]);
        }
        steps
    }

    /// Executes one native request on the worker thread and hands the
    /// outcome back, whichever thread submitted it.  A request from a
    /// foreign thread passes through the queue; the worker thread runs it
    /// directly; the outcome is the same either way.  Fails with
    /// `ThreadFailure` once the worker has shut down.
    pub fn run_with_obs(&mut self, caller_thread: u64, req: NativeRequest) -> (r: Result<
        NativeResponse,
        ObsError,
    >)
        requires
            old(self).wf(),
            old(self).alive() ==> req_valid(old(self).core_view(), req),
        ensures
            final(self).wf(),
            !old(self).alive() ==> r == Err::<NativeResponse, ObsError>(ObsError::ThreadFailure)
                && *final(self) == *old(self),
            old(self).alive() ==> dispatch_rel(
                old(self).core_view(),
                req,
                final(self).core_view(),
                r,
            ) && final(self).alive() && final(self).worker() == old(self).worker()
                && final(self).steps_view() == old(self).steps_view(),
    {
        if !self.runtime.thread_alive() {
            return Err(ObsError::ThreadFailure);
        }
        let worker = self.runtime.worker_thread_id();
        if caller_thread != worker {
            let queued = self.runtime.enqueue(req);
            self.core.apply(queued)
        } else {
            self.core.apply(req)
        }
    }

    /// As `run_with_obs`, submitted from the worker thread itself.
    pub(crate) fn dispatch(&mut self, req: NativeRequest) -> (r: Result<NativeResponse, ObsError>)
        requires
            old(self).wf(),
            old(self).alive() ==> req_valid(old(self).core_view(), req),
        ensures
            final(self).wf(),
            !old(self).alive() ==> r == Err::<NativeResponse, ObsError>(ObsError::ThreadFailure)
                && *final(self) == *old(self),
            old(self).alive() ==> dispatch_rel(
                old(self).core_view(),
                req,
                final(self).core_view(),
                r,
            ) && final(self).alive() && final(self).worker() == old(self).worker()
                && final(self).steps_view() == old(self).steps_view(),
    {
        let worker = self.runtime.worker_thread;
        self.run_with_obs(worker, req)
    }

    /// A fresh, empty settings object.
    pub fn data(&self) -> (r: ObsData)
        ensures
            r.wf(),
            forall|k: Seq<char>| #![auto] r.lookup(k) is None,
            r.update_signals() == 0,
    {
        let r = ObsData::new();
        proof {
            assert forall|k: Seq<char>| #![auto] r.lookup(k) is None by {
                assert(kv_find(Seq::<(String, ObsValue)>::empty(), k) is None);
            }
        }
        r
    }

    /// Replaces the video descriptor.  Changing the graphics backend after
    /// first initialization is unsupported by the engine and refused.
    pub fn reset_video(&mut self, video: ObsVideoInfo) -> (r: Result<(), ObsError>)
        requires
            old(self).wf(),
        ensures
            final(self).wf(),
            !old(self).alive() ==> r == Err::<(), ObsError>(ObsError::ThreadFailure) && *final(self)
                == *old(self),
            old(self).alive() && video.graphics_module
                != old(self).core_view().video_view().graphics_module ==> r == Err::<(), ObsError>(
                ObsError::ResetVideoFailureGraphicsModule,
            ) && *final(self) == *old(self),
            old(self).alive() && video.graphics_module
                == old(self).core_view().video_view().graphics_module ==> r == Ok::<(), ObsError>(())
                && final(self).core_view().video_view() == video && crate::engine::same_objects(
                old(self).core_view(),
                final(self).core_view(),
            ) && crate::engine::same_registry(old(self).core_view(), final(self).core_view())
                && crate::engine::same_channels(old(self).core_view(), final(self).core_view())
                && crate::engine::same_counts(old(self).core_view(), final(self).core_view())
                && final(self).alive(),
    {
        if !self.runtime.thread_alive() {
            return Err(ObsError::ThreadFailure);
        }
        let current = self.core.get_video();
        if !video_module_eq(video, current) {
            return Err(ObsError::ResetVideoFailureGraphicsModule);
        }
        match self.dispatch(NativeRequest::SetVideo { video }) {
            Ok(_) => Ok(()),
            Err(e) => Err(e),
        }
    }

    /// Marks the worker thread as gone: the state the platform layer
    /// reaches when its queue closes while references still exist.  Every
    /// later native-touching call fails with `ThreadFailure`.
    pub fn retire_worker(&mut self)
        requires
            old(self).wf(),
        ensures
            final(self).wf(),
            !final(self).alive(),
            final(self).core_view() == old(self).core_view(),
            final(self).worker() == old(self).worker(),
            final(self).steps_view() == old(self).steps_view(),
            final(self).deferred_view() == old(self).deferred_view(),
    {
        self.runtime.retire();
    }

    /// Whether the worker thread still serves requests.
    pub fn is_alive(&self) -> (r: bool)
        ensures
            r == self.alive(),
    {
        self.runtime.thread_alive()
    }

    /// Finds the attachment row for a scene and source pair: its index and
    /// its scene item handle.
    pub(crate) fn find_attachment(&self, scene: usize, source: usize) -> (r: Option<(usize, usize)>)
        ensures
            match r {
                Some(p) => p.0 < self.core_view().atts_view().len() && self.core_view().atts_view()[p.0 as int].scene
                    == scene && self.core_view().atts_view()[p.0 as int].source == source
                    && self.core_view().atts_view()[p.0 as int].item == p.1
                    && crate::engine::has_attachment(self.core_view().atts_view(), scene, source),
                None => !crate::engine::has_attachment(self.core_view().atts_view(), scene, source),
            },
    {
        self.core.find_attachment(scene, source)
    }

    /// How many sources the scene holds.
    pub(crate) fn count_scene_members(&self, scene: usize) -> (r: usize)
        ensures
            r == crate::engine::count_atts(self.core_view().atts_view(), scene),
    {
        self.core.count_scene_members(scene)
    }

    /// Finds a source attached to the scene whose name is the given one.
    pub(crate) fn find_source_in_scene(&self, scene: usize, name: &str) -> (r: Option<usize>)
        requires
            self.wf(),
        ensures
            match r {
                Some(s) => crate::engine::has_attachment(self.core_view().atts_view(), scene, s)
                    && crate::engine::is_source(self.core_view().objects_view(), s)
                    && crate::engine::slot_of(
                    self.core_view().objects_view(),
                    s,
                ).body->SourceBody_name@ == name@,
                None => forall|k: int|
                    0 <= k < self.core_view().atts_view().len()
                        && #[trigger] self.core_view().atts_view()[k].scene == scene
                        ==> crate::engine::slot_of(
                        self.core_view().objects_view(),
                        self.core_view().atts_view()[k].source,
                    ).body->SourceBody_name@ != name@,
            },
    {
        self.core.find_source_in_scene(scene, name)
    }

    /// A source's type id and name, as owned text.
    pub(crate) fn source_strings(&self, h: usize) -> (r: (String, String))
        requires
            self.wf(),
            crate::engine::is_source(self.core_view().objects_view(), h),
        ensures
            r.0@ == crate::engine::slot_of(self.core_view().objects_view(), h).body->SourceBody_id@,
            r.1@ == crate::engine::slot_of(
                self.core_view().objects_view(),
                h,
            ).body->SourceBody_name@,
    {
        self.core.source_strings(h)
    }

    /// Reads a text setting of a source.
    pub(crate) fn source_setting_string(&self, h: usize, key: &str) -> (r: Result<
        Option<String>,
        ObsError,
    >)
        requires
            self.wf(),
            crate::engine::is_source(self.core_view().objects_view(), h),
        ensures
            ({
                let settings = crate::engine::slot_of(
                    self.core_view().objects_view(),
                    h,
                ).body->SourceBody_settings;
                match settings.lookup(key@) {
                    None => r == Ok::<Option<String>, ObsError>(None),
                    Some(v) => match v {
                        ObsValue::Text(t) => r matches Ok(o) && o matches Some(s) && s@ == t@,
                        _ => r == Err::<Option<String>, ObsError>(ObsError::StringConversionError),
                    },
                }
            }),
    {
        self.core.source_setting_string(h, key)
    }

    /// Whether the handle names a live source.
    pub(crate) fn source_exists(&self, h: usize) -> (r: bool)
        ensures
            r == crate::engine::is_source(self.core_view().objects_view(), h),
    {
        self.core.source_exists(h)
    }

    /// How many update signals a source's settings have seen.
    pub(crate) fn source_update_signals(&self, h: usize) -> (r: u64)
        requires
            self.wf(),
            crate::engine::is_source(self.core_view().objects_view(), h),
        ensures
            r == crate::engine::slot_of(
                self.core_view().objects_view(),
                h,
            ).body->SourceBody_settings.update_signals(),
    {
        self.core.source_update_signals(h)
    }

    /// Whether the handle names a live output.
    pub(crate) fn output_exists(&self, h: usize) -> (r: bool)
        ensures
            r == crate::engine::is_output(self.core_view().objects_view(), h),
    {
        self.core.output_exists(h)
    }

    /// Whether an output's type id is the given one.
    pub(crate) fn output_id_is(&self, h: usize, id: &str) -> (r: bool)
        requires
            self.wf(),
            crate::engine::is_output(self.core_view().objects_view(), h),
        ensures
            r == (crate::engine::slot_of(self.core_view().objects_view(), h).body->OutputBody_id@
                == id@),
    {
        self.core.output_id_is(h, id)
    }

    /// Records the path of a finished replay file on an output; stands in
    /// for the native recorder reporting the write.
    pub(crate) fn set_replay_path(&mut self, h: usize, path: String)
        requires
            old(self).wf(),
            crate::engine::is_output(old(self).core_view().objects_view(), h),
        ensures
            final(self).wf(),
            final(self).alive() == old(self).alive(),
            final(self).core_view().objects_view() == old(self).core_view().objects_view().update(
                h - 1,
                Some(crate::engine::ObjectSlot {
                    shares: crate::engine::slot_of(old(self).core_view().objects_view(), h).shares,
                    body: crate::engine::ObjectBody::OutputBody {
                        id: crate::engine::slot_of(
                            old(self).core_view().objects_view(),
                            h,
                        ).body->OutputBody_id,
                        name: crate::engine::slot_of(
                            old(self).core_view().objects_view(),
                            h,
                        ).body->OutputBody_name,
                        settings: crate::engine::slot_of(
                            old(self).core_view().objects_view(),
                            h,
                        ).body->OutputBody_settings,
                        active: crate::engine::slot_of(
                            old(self).core_view().objects_view(),
                            h,
                        ).body->OutputBody_active,
                        paused: crate::engine::slot_of(
                            old(self).core_view().objects_view(),
                            h,
                        ).body->OutputBody_paused,
                        replay_path: Some(path),
                    },
                }),
            ),
            crate::engine::same_registry(old(self).core_view(), final(self).core_view()),
            crate::engine::same_channels(old(self).core_view(), final(self).core_view()),
            crate::engine::same_counts(old(self).core_view(), final(self).core_view()),
            crate::engine::same_procs(old(self).core_view(), final(self).core_view()),
    {
        self.core.output_set_replay_path(h, path);
    }

    /// How many live wrapper references a slot has.
    pub(crate) fn slot_shares(&self, h: usize) -> (r: u64)
        requires
            self.wf(),
            crate::engine::live(self.core_view().objects_view(), h),
        ensures
            r == crate::engine::slot_of(self.core_view().objects_view(), h).shares,
    {
        self.core.slot_shares(h)
    }

    /// Drops one wrapper reference of a counted object: the explicit form
    /// of the drop guard, routed through the runtime.
    pub(crate) fn release_handle(&mut self, h: usize) -> (r: Result<(), ObsError>)
        requires
            old(self).wf(),
            crate::engine::live(old(self).core_view().objects_view(), h),
            crate::engine::counted(crate::engine::slot_of(old(self).core_view().objects_view(), h).body),
            crate::engine::slot_of(old(self).core_view().objects_view(), h).shares >= 1,
        ensures
            final(self).wf(),
            !old(self).alive() ==> (r == Err::<(), ObsError>(ObsError::ThreadFailure) && *final(self)
                == *old(self)),
            old(self).alive() ==> r == Ok::<(), ObsError>(()) && crate::engine::release_rel(
                old(self).core_view(),
                h,
                final(self).core_view(),
            ) && final(self).alive() && final(self).worker() == old(self).worker()
                && final(self).steps_view() == old(self).steps_view(),
    {
        if !self.runtime.thread_alive() {
            return Err(ObsError::ThreadFailure);
        }
        self.core.release(h);
        Ok(())
    }

    /// Applies a batch of settings writes to a source.
    pub(crate) fn source_apply_updater(&mut self, h: usize, updater: crate::data::ObsDataUpdater)
        requires
            old(self).wf(),
            crate::engine::is_source(old(self).core_view().objects_view(), h),
            crate::engine::slot_of(
                old(self).core_view().objects_view(),
                h,
            ).body->SourceBody_settings.update_signals() < u64::MAX,
        ensures
            final(self).wf(),
            final(self).alive() == old(self).alive(),
            ({
                let pre_slot = crate::engine::slot_of(old(self).core_view().objects_view(), h);
                let pre_data = pre_slot.body->SourceBody_settings;
                let post_data = crate::engine::slot_of(
                    final(self).core_view().objects_view(),
                    h,
                ).body->SourceBody_settings;
                &&& final(self).core_view().objects_view() == old(
                    self,
                ).core_view().objects_view().update(
                    h - 1,
                    Some(crate::engine::ObjectSlot {
                        shares: pre_slot.shares,
                        body: crate::engine::ObjectBody::SourceBody {
                            id: pre_slot.body->SourceBody_id,
                            name: pre_slot.body->SourceBody_name,
                            settings: post_data,
                        },
                    }),
                )
                &&& forall|k: Seq<char>| #![auto] post_data.lookup(k) == (match crate::data::kv_find_last(
                    updater.pending_view(),
                    k,
                ) {
                    Some(v) => Some(v),
                    None => pre_data.lookup(k),
                })
                &&& post_data.update_signals() == pre_data.update_signals() + 1
                &&& pre_data.wf() ==> post_data.wf()
            }),
            crate::engine::same_counts(old(self).core_view(), final(self).core_view()),
            final(self).core_view().atts_view() == old(self).core_view().atts_view(),
            crate::engine::same_channels(old(self).core_view(), final(self).core_view()),
    {
        self.core.source_apply_updater(h, updater);
    }

    /// Queues a reference drop without blocking: the non-blocking drop
    /// mode for latency-sensitive callers.  The release itself happens at
    /// the next `flush_drops`, so callers needing deterministic teardown
    /// order use the references' own `release` instead.
    pub fn queue_release(&mut self, handle: usize)
        requires
            old(self).wf(),
        ensures
            final(self).wf(),
            final(self).deferred_view() == old(self).deferred_view().push(handle),
            final(self).core_view() == old(self).core_view(),
            final(self).alive() == old(self).alive(),
    {
        self.deferred_drops.push(handle);
    }

    /// Works the non-blocking drop queue off on the worker thread: the
    /// queue is walked front to back, and every handle that at its turn
    /// still names a live counted object with a reference left takes
    /// exactly one release; stale entries are skipped.  Hands back how
    /// many releases were issued.
    pub fn flush_drops(&mut self) -> (r: Result<usize, ObsError>)
        requires
            old(self).wf(),
        ensures
            final(self).wf(),
            !old(self).alive() ==> (r == Err::<usize, ObsError>(ObsError::ThreadFailure)
                && *final(self) == *old(self)),
            old(self).alive() ==> ({
                &&& r matches Ok(n)
                &&& drops_flushed(
                    old(self).core_view(),
                    old(self).deferred_view(),
                    final(self).core_view(),
                    n as int,
                )
                &&& final(self).deferred_view().len() == 0
                &&& final(self).alive()
                &&& final(self).core_view().retains() == old(self).core_view().retains()
            }),
    {
        if !self.runtime.thread_alive() {
            return Err(ObsError::ThreadFailure);
        }
        let n = self.drain_queue();
        Ok(n)
    }

    /// Walks the drop queue off, front to back.
    fn drain_queue(&mut self) -> (r: usize)
        requires
            old(self).wf(),
        ensures
            final(self).wf(),
            r <= old(self).deferred_view().len(),
            final(self).deferred_view().len() == 0,
            drops_flushed(
                old(self).core_view(),
                old(self).deferred_view(),
                final(self).core_view(),
                r as int,
            ),
            final(self).core_view().retains() == old(self).core_view().retains(),
            final(self).alive() == old(self).alive(),
            final(self).worker() == old(self).worker(),
            final(self).steps_view() == old(self).steps_view(),
        decreases old(self).deferred_drops@.len(),
    {
        let ghost pre = *self;
        if self.deferred_drops.len() == 0 {
            proof {
                assert(pre.deferred_view() =~= Seq::<usize>::empty());
            }
            return 0;
        }
        let handle = self.deferred_drops.remove(0);
        proof {
            assert(self.deferred_drops@ =~= pre.deferred_view().skip(1));
            assert(pre.deferred_view()[0] == handle);
        }
        if self.core.releasable(handle) {
            self.core.release(handle);
            let ghost mid = *self;
            let rest = self.drain_queue();
            proof {
                assert(drops_flushed(
                    pre.core_view(),
                    pre.deferred_view(),
                    self.core_view(),
                    rest + 1int,
                )) by {
                    assert(mid.core_view().wf() && crate::engine::release_rel(
                        pre.core_view(),
                        handle,
                        mid.core_view(),
                    ) && drops_flushed(
                        mid.core_view(),
                        pre.deferred_view().skip(1),
                        self.core_view(),
                        (rest + 1int) - 1,
                    ));
                }
            }
            rest + 1
        } else {
            let rest = self.drain_queue();
            rest
        }
    }

    /// Whether a request may be handed to `run_with_obs` against the
    /// current engine state.  The platform layer tests a caller-supplied
    /// request with this before submitting it.
    pub fn request_valid(&self, req: &NativeRequest) -> (r: bool)
        requires
            self.wf(),
        ensures
            r == req_valid(self.core_view(), *req),
    {
        match req {
            NativeRequest::CreateScene { .. } => true,
            NativeRequest::CreateOutput { .. } => true,
            NativeRequest::CreateFilter { .. } => true,
            NativeRequest::AttachNewSource { scene, .. } => self.core.scene_exists(*scene),
            NativeRequest::DetachSource { .. } => true,
            NativeRequest::AddRef { handle } => self.core.can_add_ref(*handle),
            NativeRequest::SetChannelSource { channel, .. } => *channel < 64,
            NativeRequest::ItemGetLocked { item } => self.core.item_exists(*item),
            NativeRequest::ItemSetLocked { item, .. } => self.core.item_exists(*item),
            NativeRequest::ItemGetInfo { item } => self.core.item_exists(*item),
            NativeRequest::ItemSetInfo { item, .. } => self.core.item_exists(*item),
            NativeRequest::GetVideo => true,
            NativeRequest::SetVideo { .. } => true,
            NativeRequest::OutputGetFlags { output } => self.core.output_exists(*output),
            NativeRequest::OutputSetFlags { output, .. } => self.core.output_exists(*output),
            NativeRequest::ProcSave { output } => self.core.output_exists(*output)
                && self.core.proc_counter() < u64::MAX,
            NativeRequest::ProcLastReplay { output } => self.core.output_exists(*output)
                && self.core.proc_counter() < u64::MAX,
            NativeRequest::FilterAttach { .. } => true,
            NativeRequest::FilterDetach { .. } => true,
        }
    }

    /// The engine's retain and release counters, in that order.
    pub fn counters(&self) -> (r: (u64, u64))
        ensures
            r.0 == self.core_view().retains(),
            r.1 == self.core_view().releases(),
    {
        self.core.counters()
    }

    /// The engine's native-procedure-call counter.
    pub fn proc_calls(&self) -> (r: u64)
        ensures
            r == self.core_view().procs(),
    {
        self.core.proc_counter()
    }

    /// How many counted objects are live.
    pub fn live_objects(&self) -> (r: usize)
        requires
            self.wf(),
        ensures
            r == live_count(self.core_view().objects_view()),
    {
        self.core.live_objects()
    }

    /// The failure report of module loading, as `ObsModules::log_if_failed`.
    pub fn module_failure_report(&self) -> (r: Option<String>)
        ensures
            match r {
                None => self.modules_spec().failed_view().len() == 0,
                Some(s) => self.modules_spec().failed_view().len() > 0 && s@
                    == crate::modules::comma_joined(self.modules_spec().failed_view()),
            },
    {
        self.modules.log_if_failed()
    }
}

/// Whether two video descriptors use the same graphics backend.
fn video_module_eq(a: ObsVideoInfo, b: ObsVideoInfo) -> (r: bool)
    ensures
        r == (a.graphics_module == b.graphics_module),
{
    a.graphics_module == b.graphics_module
}

} // verus!
