//! The execution-affinity runtime: every native call is a request that
//! executes on the engine's worker thread.  A caller on any other thread
//! queues the request and waits; the outcome is a function of the engine
//! state and the request alone, never of the calling thread.

use vstd::prelude::*;

use crate::data::ObsData;
use crate::engine::attach_rel;
use crate::engine::counted;
use crate::engine::create_rel;
use crate::engine::detach_rel;
use crate::engine::is_item;
use crate::engine::is_output;
use crate::engine::is_scene;
use crate::engine::live;
use crate::engine::same_channels;
use crate::engine::same_counts;
use crate::engine::same_objects;
use crate::engine::same_procs;
use crate::engine::same_registry;
use crate::engine::same_video;
use crate::engine::slot_of;
use crate::engine::unchanged;
use crate::engine::EngineCore;
use crate::engine::ObjectBody;
use crate::engine::ObjectSlot;
use crate::error::ObsError;
use crate::graphics::ObsVideoInfo;
use crate::transform::ObsTransformInfo;

verus! {

/// One unit of work for the worker thread: a native engine call with its
/// arguments.
pub enum NativeRequest {
    CreateScene { name: String },
    CreateOutput { id: String, name: String, settings: ObsData },
    CreateFilter { id: String, name: String },
    AttachNewSource { scene: usize, id: String, name: String, settings: ObsData },
    DetachSource { scene: usize, source: usize },
    AddRef { handle: usize },
    SetChannelSource { channel: u32, scene: usize },
    ItemGetLocked { item: usize },
    ItemSetLocked { item: usize, locked: bool },
    ItemGetInfo { item: usize },
    ItemSetInfo { item: usize, info: ObsTransformInfo },
    GetVideo,
    SetVideo { video: ObsVideoInfo },
    OutputGetFlags { output: usize },
    OutputSetFlags { output: usize, active: bool, paused: bool },
    ProcSave { output: usize },
    ProcLastReplay { output: usize },
    FilterAttach { source: usize, filter: usize },
    FilterDetach { source: usize, filter: usize },
}

/// What a request hands back when it succeeds.
#[derive(Debug, Clone, PartialEq)]
pub enum NativeResponse {
    Done,
    Handle(usize),
    HandlePair(usize, usize),
    Flag(bool),
    Flags(bool, bool),
    Info(ObsTransformInfo),
    Video(ObsVideoInfo),
    MaybeText(Option<String>),
}

/// What a request demands of the engine state it runs against.
pub open spec fn req_valid(pre: EngineCore, req: NativeRequest) -> bool {
    let o = pre.objects_view();
    match req {
        NativeRequest::CreateScene { .. } => true,
        NativeRequest::CreateOutput { .. } => true,
        NativeRequest::CreateFilter { .. } => true,
        NativeRequest::AttachNewSource { scene, .. } => is_scene(o, scene),
        NativeRequest::DetachSource { .. } => true,
        NativeRequest::AddRef { handle } => live(o, handle) && counted(slot_of(o, handle).body)
            && slot_of(o, handle).shares < u64::MAX,
        NativeRequest::SetChannelSource { channel, .. } => channel < 64,
        NativeRequest::ItemGetLocked { item } => is_item(o, item),
        NativeRequest::ItemSetLocked { item, .. } => is_item(o, item),
        NativeRequest::ItemGetInfo { item } => is_item(o, item),
        NativeRequest::ItemSetInfo { item, .. } => is_item(o, item),
        NativeRequest::GetVideo => true,
        NativeRequest::SetVideo { .. } => true,
        NativeRequest::OutputGetFlags { output } => is_output(o, output),
        NativeRequest::OutputSetFlags { output, .. } => is_output(o, output),
        NativeRequest::ProcSave { output } => is_output(o, output) && pre.procs() < u64::MAX,
        NativeRequest::ProcLastReplay { output } => is_output(o, output) && pre.procs() < u64::MAX,
        NativeRequest::FilterAttach { .. } => true,
        NativeRequest::FilterDetach { .. } => true,
    }
}

/// What running a request does: the relation between the engine state
/// before, the state after, and the outcome.  For every request the
/// relation pins the outcome and the new state as functions of the old
/// state and the request; that is what makes the runtime transparent to
/// the calling thread.
pub open spec fn dispatch_rel(
    pre: EngineCore,
    req: NativeRequest,
    post: EngineCore,
    r: Result<NativeResponse, ObsError>,
) -> bool {
    match req {
        NativeRequest::CreateScene { name } => {
            ||| (r matches Ok(NativeResponse::Handle(h)) && create_rel(
                pre,
                ObjectBody::SceneBody { name },
                post,
                Ok(h),
            ))
            ||| (r matches Err(e) && create_rel(pre, ObjectBody::SceneBody { name }, post, Err(e)))
        },
        NativeRequest::CreateOutput { id, name, settings } => {
            ||| (r matches Ok(NativeResponse::Handle(h)) && create_rel(
                pre,
                ObjectBody::OutputBody {
                    id,
                    name,
                    settings,
                    active: false,
                    paused: false,
                    replay_path: None,
                },
                post,
                Ok(h),
            ))
            ||| (r matches Err(e) && create_rel(
                pre,
                ObjectBody::OutputBody {
                    id,
                    name,
                    settings,
                    active: false,
                    paused: false,
                    replay_path: None,
                },
                post,
                Err(e),
            ))
        },
        NativeRequest::CreateFilter { id, name } => {
            ||| (r matches Ok(NativeResponse::Handle(h)) && create_rel(
                pre,
                ObjectBody::FilterBody { id, name },
                post,
                Ok(h),
            ))
            ||| (r matches Err(e) && create_rel(pre, ObjectBody::FilterBody { id, name }, post, Err(e)))
        },
        NativeRequest::AttachNewSource { scene, id, name, settings } => {
            ||| (r matches Ok(NativeResponse::HandlePair(s, it)) && attach_rel(
                pre,
                scene,
                id,
                name,
                settings,
                post,
                Ok((s, it)),
            ))
            ||| (r matches Err(e) && attach_rel(pre, scene, id, name, settings, post, Err(e)))
        },
        NativeRequest::DetachSource { scene, source } => {
            ||| (r == Ok::<NativeResponse, ObsError>(NativeResponse::Done) && detach_rel(
                pre,
                scene,
                source,
                post,
                Ok(()),
            ))
            ||| (r matches Err(e) && detach_rel(pre, scene, source, post, Err(e)))
        },
        NativeRequest::AddRef { handle } => {
            &&& r == Ok::<NativeResponse, ObsError>(NativeResponse::Done)
            &&& post.objects_view() == pre.objects_view().update(
                handle - 1,
                Some(ObjectSlot {
                    shares: (slot_of(pre.objects_view(), handle).shares + 1) as u64,
                    body: slot_of(pre.objects_view(), handle).body,
                }),
            )
            &&& same_registry(pre, post)
            &&& same_channels(pre, post)
            &&& same_counts(pre, post)
            &&& same_procs(pre, post)
            &&& same_video(pre, post)
        },
        NativeRequest::SetChannelSource { channel, scene } => {
            &&& r == Ok::<NativeResponse, ObsError>(NativeResponse::Done)
            &&& post.channels_view() == pre.channels_view().update(channel as int, scene)
            &&& same_objects(pre, post)
            &&& same_registry(pre, post)
            &&& same_counts(pre, post)
            &&& same_procs(pre, post)
            &&& same_video(pre, post)
        },
        NativeRequest::ItemGetLocked { item } => {
            &&& r == Ok::<NativeResponse, ObsError>(
                NativeResponse::Flag(slot_of(pre.objects_view(), item).body->ItemBody_locked),
            )
            &&& unchanged(pre, post)
        },
        NativeRequest::ItemSetLocked { item, locked } => {
            &&& r == Ok::<NativeResponse, ObsError>(NativeResponse::Done)
            &&& post.objects_view() == pre.objects_view().update(
                item - 1,
                Some(ObjectSlot {
                    shares: 0u64,
                    body: ObjectBody::ItemBody {
                        scene: slot_of(pre.objects_view(), item).body->ItemBody_scene,
                        source: slot_of(pre.objects_view(), item).body->ItemBody_source,
                        locked,
                        transform: slot_of(pre.objects_view(), item).body->ItemBody_transform,
                    },
                }),
            )
            &&& same_registry(pre, post)
            &&& same_channels(pre, post)
            &&& same_counts(pre, post)
            &&& same_procs(pre, post)
            &&& same_video(pre, post)
        },
        NativeRequest::ItemGetInfo { item } => {
            &&& r == Ok::<NativeResponse, ObsError>(
                NativeResponse::Info(slot_of(pre.objects_view(), item).body->ItemBody_transform),
            )
            &&& unchanged(pre, post)
        },
        NativeRequest::ItemSetInfo { item, info } => {
            &&& r == Ok::<NativeResponse, ObsError>(NativeResponse::Done)
            &&& post.objects_view() == pre.objects_view().update(
                item - 1,
                Some(ObjectSlot {
                    shares: 0u64,
                    body: ObjectBody::ItemBody {
                        scene: slot_of(pre.objects_view(), item).body->ItemBody_scene,
                        source: slot_of(pre.objects_view(), item).body->ItemBody_source,
                        locked: slot_of(pre.objects_view(), item).body->ItemBody_locked,
                        transform: info,
                    },
                }),
            )
            &&& same_registry(pre, post)
            &&& same_channels(pre, post)
            &&& same_counts(pre, post)
            &&& same_procs(pre, post)
            &&& same_video(pre, post)
        },
        NativeRequest::GetVideo => {
            &&& r == Ok::<NativeResponse, ObsError>(NativeResponse::Video(pre.video_view()))
            &&& unchanged(pre, post)
        },
        NativeRequest::SetVideo { video } => {
            &&& r == Ok::<NativeResponse, ObsError>(NativeResponse::Done)
            &&& post.video_view() == video
            &&& same_objects(pre, post)
            &&& same_registry(pre, post)
            &&& same_channels(pre, post)
            &&& same_counts(pre, post)
            &&& same_procs(pre, post)
        },
        NativeRequest::OutputGetFlags { output } => {
            &&& r == Ok::<NativeResponse, ObsError>(
                NativeResponse::Flags(
                    slot_of(pre.objects_view(), output).body->OutputBody_active,
                    slot_of(pre.objects_view(), output).body->OutputBody_paused,
                ),
            )
            &&& unchanged(pre, post)
        },
        NativeRequest::OutputSetFlags { output, active, paused } => {
            &&& r == Ok::<NativeResponse, ObsError>(NativeResponse::Done)
            &&& post.objects_view() == pre.objects_view().update(
                output - 1,
                Some(ObjectSlot {
                    shares: slot_of(pre.objects_view(), output).shares,
                    body: ObjectBody::OutputBody {
                        id: slot_of(pre.objects_view(), output).body->OutputBody_id,
                        name: slot_of(pre.objects_view(), output).body->OutputBody_name,
                        settings: slot_of(pre.objects_view(), output).body->OutputBody_settings,
                        active,
                        paused,
                        replay_path: slot_of(pre.objects_view(), output).body->OutputBody_replay_path,
                    },
                }),
            )
            &&& same_registry(pre, post)
            &&& same_channels(pre, post)
            &&& same_counts(pre, post)
            &&& same_procs(pre, post)
            &&& same_video(pre, post)
        },
        NativeRequest::ProcSave { output } => {
            &&& r == Ok::<NativeResponse, ObsError>(
                NativeResponse::Flag(slot_of(pre.objects_view(), output).body->OutputBody_active),
            )
            &&& post.procs() == pre.procs() + 1
            &&& same_objects(pre, post)
            &&& same_registry(pre, post)
            &&& same_channels(pre, post)
            &&& same_counts(pre, post)
            &&& same_video(pre, post)
        },
        NativeRequest::ProcLastReplay { output } => {
            &&& r == Ok::<NativeResponse, ObsError>(
                NativeResponse::MaybeText(
                    slot_of(pre.objects_view(), output).body->OutputBody_replay_path,
                ),
            )
            &&& post.procs() == pre.procs() + 1
            &&& same_objects(pre, post)
            &&& same_registry(pre, post)
            &&& same_channels(pre, post)
            &&& same_counts(pre, post)
            &&& same_video(pre, post)
        },
        NativeRequest::FilterAttach { source, filter } => {
            &&& r == Ok::<NativeResponse, ObsError>(NativeResponse::Done)
            &&& post.filter_links_view() == pre.filter_links_view().push((source, filter))
            &&& same_objects(pre, post)
            &&& post.atts_view() == pre.atts_view()
            &&& same_channels(pre, post)
            &&& same_counts(pre, post)
            &&& same_procs(pre, post)
            &&& same_video(pre, post)
        },
        NativeRequest::FilterDetach { source, filter } => {
            &&& r matches Ok(NativeResponse::Flag(removed)) && crate::engine::filter_unlink_rel(
                pre,
                source,
                filter,
                post,
                removed,
            )
            &&& same_objects(pre, post)
            &&& post.atts_view() == pre.atts_view()
            &&& same_channels(pre, post)
            &&& same_counts(pre, post)
            &&& same_procs(pre, post)
            &&& same_video(pre, post)
        },
    }
}

/// Two engine states that agree on everything observable.
pub open spec fn core_like(a: EngineCore, b: EngineCore) -> bool {
    &&& a.objects_view() == b.objects_view()
    &&& a.atts_view() == b.atts_view()
    &&& a.filter_links_view() == b.filter_links_view()
    &&& a.channels_view() == b.channels_view()
    &&& a.retains() == b.retains()
    &&& a.releases() == b.releases()
    &&& a.procs() == b.procs()
    &&& a.video_view() == b.video_view()
}

/// Affinity transparency: a request's outcome and the resulting engine
/// state are the same whichever thread submitted it.  Two runs of one
/// request against one engine state agree on the result and on everything
/// observable in the state.
pub proof fn lemma_affinity_transparency(
    pre: EngineCore,
    req: NativeRequest,
    post1: EngineCore,
    r1: Result<NativeResponse, ObsError>,
    post2: EngineCore,
    r2: Result<NativeResponse, ObsError>,
)
    requires
        pre.wf(),
        dispatch_rel(pre, req, post1, r1),
        dispatch_rel(pre, req, post2, r2),
    ensures
        r1 == r2,
        core_like(post1, post2),
{
    match req {
        NativeRequest::DetachSource { scene, source } => {
            if crate::engine::has_attachment(pre.atts_view(), scene, source) {
                let atts = pre.atts_view();
                let i1 = choose|i: int|
                    #![auto]
                    0 <= i < atts.len() && atts[i].scene == scene && atts[i].source == source
                        && post1.atts_view() == atts.remove(i) && {
                        let item = atts[i].item;
                        let dies = slot_of(pre.objects_view(), source).shares == 0
                            && !crate::engine::source_attached(atts.remove(i), source);
                        &&& post1.objects_view() == if dies {
                            pre.objects_view().update(item - 1, None).update(source - 1, None)
                        } else {
                            pre.objects_view().update(item - 1, None)
                        }
                        &&& post1.releases() == pre.releases() + if dies {
                            1int
                        } else {
                            0int
                        }
                    };
                let i2 = choose|i: int|
                    #![auto]
                    0 <= i < atts.len() && atts[i].scene == scene && atts[i].source == source
                        && post2.atts_view() == atts.remove(i) && {
                        let item = atts[i].item;
                        let dies = slot_of(pre.objects_view(), source).shares == 0
                            && !crate::engine::source_attached(atts.remove(i), source);
                        &&& post2.objects_view() == if dies {
                            pre.objects_view().update(item - 1, None).update(source - 1, None)
                        } else {
                            pre.objects_view().update(item - 1, None)
                        }
                        &&& post2.releases() == pre.releases() + if dies {
                            1int
                        } else {
                            0int
                        }
                    };
                assert(i1 == i2) by {
                    if i1 < i2 {
                        assert(!(atts[i1].scene == atts[i2].scene && atts[i1].source
                            == atts[i2].source));
                    } else if i2 < i1 {
                        assert(!(atts[i2].scene == atts[i1].scene && atts[i2].source
                            == atts[i1].source));
                    }
                }
            }
        },
        NativeRequest::FilterDetach { source, filter } => {
            let links = pre.filter_links_view();
            if exists|i: int| 0 <= i < links.len() && links[i] == ((source, filter)) {
                let i1 = choose|i: int|
                    #![auto]
                    0 <= i < links.len() && links[i] == ((source, filter)) && (forall|k: int|
                        0 <= k < i ==> #[trigger] links[k] != ((source, filter)))
                        && post1.filter_links_view() == links.remove(i);
                let i2 = choose|i: int|
                    #![auto]
                    0 <= i < links.len() && links[i] == ((source, filter)) && (forall|k: int|
                        0 <= k < i ==> #[trigger] links[k] != ((source, filter)))
                        && post2.filter_links_view() == links.remove(i);
                assert(i1 == i2) by {
                    if i1 < i2 {
                        assert(links[i1] != ((source, filter)));
                    } else if i2 < i1 {
                        assert(links[i2] != ((source, filter)));
                    }
                }
            }
        },
        _ => {},
    }
}

/// The state of the execution-affinity runtime: the worker thread bound to
/// the engine, whether it still runs, and its request queue.  The queue is
/// empty between calls: the submitting caller blocks until its request has
/// run.
pub struct ObsRuntime {
    pub(crate) worker_thread: u64,
    pub(crate) alive: bool,
    pub(crate) pending: Vec<NativeRequest>,
}

impl ObsRuntime {
    /// The thread the engine was initialized on.
    pub closed spec fn worker(self) -> u64 {
        self.worker_thread
    }

    /// Whether the worker still serves requests.
    pub closed spec fn is_alive(self) -> bool {
        self.alive
    }

    /// The request queue.
    pub closed spec fn pending_view(self) -> Seq<NativeRequest> {
        self.pending@
    }

    /// A runtime bound to the given worker thread.
    pub(crate) fn bind(worker_thread: u64) -> (r: ObsRuntime)
        ensures
            r.worker() == worker_thread,
            r.is_alive(),
            r.pending_view().len() == 0,
    {
        ObsRuntime { worker_thread, alive: true, pending: Vec::new() }
    }

    /// The worker thread's identity.
    pub fn worker_thread_id(&self) -> (r: u64)
        ensures
            r == self.worker(),
    {
        self.worker_thread
    }

    /// Whether the worker still serves requests.
    pub fn thread_alive(&self) -> (r: bool)
        ensures
            r == self.is_alive(),
    {
        self.alive
    }

    /// Queues a request from a foreign thread and hands it to the worker:
    /// the queue drains back to empty before the call returns.
    pub(crate) fn enqueue(&mut self, req: NativeRequest) -> (out: NativeRequest)
        requires
            old(self).pending_view().len() == 0,
        ensures
            out == req,
            final(self).pending_view().len() == 0,
            final(self).is_alive() == old(self).is_alive(),
            final(self).worker() == old(self).worker(),
    {
        self.pending.push(req);
        self.pending.remove(0)
    }

    /// Marks the worker as shut down: every later request fails with
    /// `ThreadFailure`.
    pub(crate) fn retire(&mut self)
        ensures
            !final(self).is_alive(),
            final(self).pending_view() == old(self).pending_view(),
            final(self).worker() == old(self).worker(),
    {
        self.alive = false;
    }
}

impl EngineCore {
    /// Runs one request against the engine.  Only the worker thread calls
    /// this; everyone else goes through the runtime queue.
    pub(crate) fn apply(&mut self, req: NativeRequest) -> (r: Result<NativeResponse, ObsError>)
        requires
            old(self).wf(),
            req_valid(*old(self), req),
        ensures
            final(self).wf(),
            dispatch_rel(*old(self), req, *final(self), r),
    {
        match req {
            NativeRequest::CreateScene { name } => {
                match self.create_object(ObjectBody::SceneBody { name }) {
                    Ok(h) => Ok(NativeResponse::Handle(h)),
                    Err(e) => Err(e),
                }
            },
            NativeRequest::CreateOutput { id, name, settings } => {
                match self.create_object(ObjectBody::OutputBody {
                    id,
                    name,
                    settings,
                    active: false,
                    paused: false,
                    replay_path: None,
                }) {
                    Ok(h) => Ok(NativeResponse::Handle(h)),
                    Err(e) => Err(e),
                }
            },
            NativeRequest::CreateFilter { id, name } => {
                match self.create_object(ObjectBody::FilterBody { id, name }) {
                    Ok(h) => Ok(NativeResponse::Handle(h)),
                    Err(e) => Err(e),
                }
            },
            NativeRequest::AttachNewSource { scene, id, name, settings } => {
                match self.attach_new_source(scene, id, name, settings) {
                    Ok((s, it)) => Ok(NativeResponse::HandlePair(s, it)),
                    Err(e) => Err(e),
                }
            },
            NativeRequest::DetachSource { scene, source } => {
                match self.detach_source(scene, source) {
                    Ok(()) => Ok(NativeResponse::Done),
                    Err(e) => Err(e),
                }
            },
            NativeRequest::AddRef { handle } => {
                self.add_ref(handle);
                Ok(NativeResponse::Done)
            },
            NativeRequest::SetChannelSource { channel, scene } => {
                self.set_channel(channel, scene);
                Ok(NativeResponse::Done)
            },
            NativeRequest::ItemGetLocked { item } => {
                let (locked, _) = self.item_state(item);
                Ok(NativeResponse::Flag(locked))
            },
            NativeRequest::ItemSetLocked { item, locked } => {
                self.item_set_locked(item, locked);
                Ok(NativeResponse::Done)
            },
            NativeRequest::ItemGetInfo { item } => {
                let (_, info) = self.item_state(item);
                Ok(NativeResponse::Info(info))
            },
            NativeRequest::ItemSetInfo { item, info } => {
                self.item_set_info(item, info);
                Ok(NativeResponse::Done)
            },
            NativeRequest::GetVideo => Ok(NativeResponse::Video(self.get_video())),
            NativeRequest::SetVideo { video } => {
                self.set_video(video);
                Ok(NativeResponse::Done)
            },
            NativeRequest::OutputGetFlags { output } => {
                let (active, paused) = self.output_flags(output);
                Ok(NativeResponse::Flags(active, paused))
            },
            NativeRequest::OutputSetFlags { output, active, paused } => {
                self.output_set_flags(output, active, paused);
                Ok(NativeResponse::Done)
            },
            NativeRequest::ProcSave { output } => {
                let taken = self.proc_save(output);
                Ok(NativeResponse::Flag(taken))
            },
            NativeRequest::ProcLastReplay { output } => {
                let path = self.proc_last_replay(output);
                Ok(NativeResponse::MaybeText(path))
            },
            NativeRequest::FilterAttach { source, filter } => {
                self.filter_link_add(source, filter);
                Ok(NativeResponse::Done)
            },
            NativeRequest::FilterDetach { source, filter } => {
                let removed = self.filter_link_remove(source, filter);
                Ok(NativeResponse::Flag(removed))
            },
        }
    }
}

} // verus!
