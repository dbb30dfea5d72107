//! Scene references: membership of sources, output channels, and the
//! placement of sources within the scene.

use vstd::prelude::*;

use crate::context::ObsContext;
use crate::data::ObsData;
use crate::engine::count_atts;
use crate::engine::has_attachment;
use crate::engine::is_scene;
use crate::engine::release_rel;
use crate::engine::slot_of;
use crate::engine::unchanged;
use crate::engine::EngineCore;
use crate::engine::ObjectBody;
use crate::engine::ObjectSlot;
use crate::error::ObsError;
use crate::graphics::Vec2;
use crate::graphics::OBS_ALIGN_CENTER;
use crate::graphics::OBS_ALIGN_LEFT;
use crate::graphics::OBS_ALIGN_TOP;
use crate::runtime::NativeRequest;
use crate::runtime::NativeResponse;
use crate::sources::ObsFilterRef;
use crate::sources::ObsSourceRef;
use crate::sources::SourceInfo;
use crate::transform::ObsBoundsType;
use crate::transform::ObsTransformInfo;
use crate::transform::ObsTransformInfoBuilder;
use crate::utils::NativeHandle;
use crate::utils::ObsObjectKind;
use crate::utils::ObsString;
use crate::MAX_CHANNELS;

verus! {

/// The placement that fits a source to the screen: reset to the origin at
/// unit scale, bounded by the base resolution with `ScaleInner`, keeping
/// only the item's crop flag.
pub open spec fn fit_transform(crop: bool, base_width: u32, base_height: u32) -> ObsTransformInfo {
    ObsTransformInfo {
        pos: Vec2 { x: 0, y: 0 },
        scale: Vec2 { x: 1, y: 1 },
        alignment: OBS_ALIGN_LEFT | OBS_ALIGN_TOP,
        rot: 0,
        bounds: Vec2 { x: base_width as i64, y: base_height as i64 },
        bounds_type: ObsBoundsType::ScaleInner,
        bounds_alignment: OBS_ALIGN_CENTER,
        crop_to_bounds: crop,
    }
}

/// What fitting one scene item to the screen does: a locked item is left
/// untouched and reported unfitted; an unlocked one gets `fit_transform`
/// of the current base resolution.
pub open spec fn fit_outcome(
    pre: EngineCore,
    item: usize,
    post: EngineCore,
    r: Result<bool, ObsError>,
) -> bool {
    let body = slot_of(pre.objects_view(), item).body;
    if body->ItemBody_locked {
        r == Ok::<bool, ObsError>(false) && unchanged(pre, post)
    } else {
        &&& r == Ok::<bool, ObsError>(true)
        &&& post.objects_view() == pre.objects_view().update(
            item - 1,
            Some(ObjectSlot {
                shares: 0u64,
                body: ObjectBody::ItemBody {
                    scene: body->ItemBody_scene,
                    source: body->ItemBody_source,
                    locked: false,
                    transform: fit_transform(
                        body->ItemBody_transform.crop_to_bounds,
                        pre.video_view().base_width,
                        pre.video_view().base_height,
                    ),
                },
            }),
        )
        &&& crate::engine::same_registry(pre, post)
        &&& crate::engine::same_channels(pre, post)
        &&& crate::engine::same_counts(pre, post)
        &&& crate::engine::same_video(pre, post)
    }
}

/// Fitting to the screen puts the current output base resolution in the
/// bounds of an unlocked item, and leaves a locked item's placement
/// exactly as it was.
pub proof fn lemma_fit_source_to_screen_law(
    pre: EngineCore,
    item: usize,
    post: EngineCore,
    r: Result<bool, ObsError>,
)
    requires
        crate::engine::is_item(pre.objects_view(), item),
        fit_outcome(pre, item, post, r),
    ensures
        slot_of(pre.objects_view(), item).body->ItemBody_locked ==> r == Ok::<bool, ObsError>(false)
            && slot_of(post.objects_view(), item).body->ItemBody_transform == slot_of(
            pre.objects_view(),
            item,
        ).body->ItemBody_transform,
        !slot_of(pre.objects_view(), item).body->ItemBody_locked ==> r == Ok::<bool, ObsError>(true)
            && slot_of(post.objects_view(), item).body->ItemBody_transform.bounds == (Vec2 {
            x: pre.video_view().base_width as i64,
            y: pre.video_view().base_height as i64,
        }),
{
    if !slot_of(pre.objects_view(), item).body->ItemBody_locked {
        assert(post.objects_view()[item - 1] == pre.objects_view().update(
            item - 1,
            post.objects_view()[item - 1],
        )[item - 1]);
    }
}

/// Assigning a scene to a channel is idempotent: a second identical
/// assignment leaves the channel map exactly as the first did.
pub proof fn lemma_set_to_channel_idempotent(channels: Seq<usize>, channel: u32, scene: usize)
    requires
        channel < 64,
        channels.len() == 64,
    ensures
        channels.update(channel as int, scene).update(channel as int, scene) == channels.update(
            channel as int,
            scene,
        ),
{
    assert(channels.update(channel as int, scene).update(channel as int, scene) =~= channels.update(
        channel as int,
        scene,
    ));
}

/// A reference to a live scene.  The scene owns its membership: sources
/// stay attached until `remove_source`, whatever happens to the callers'
/// source references.
pub struct ObsSceneRef {
    pub(crate) handle: usize,
    pub(crate) name: ObsString,
}

impl ObsSceneRef {
    /// The native handle this reference names.
    pub closed spec fn handle_spec(self) -> usize {
        self.handle
    }

    /// The scene's name.
    pub closed spec fn name_view(self) -> Seq<char> {
        self.name@
    }

    /// The reference names a live scene of the engine.
    pub open spec fn valid(self, core: EngineCore) -> bool {
        is_scene(core.objects_view(), self.handle_spec())
    }

    /// The scene's name.
    pub fn name(&self) -> (r: ObsString)
        ensures
            r@ == self.name_view(),
    {
        ObsString::from_string(self.name.to_text())
    }

    /// The tagged native handle.
    pub fn as_ptr(&self) -> (r: NativeHandle)
        ensures
            r == (NativeHandle { raw: self.handle_spec(), kind: ObsObjectKind::Scene }),
    {
        NativeHandle { raw: self.handle, kind: ObsObjectKind::Scene }
    }

    /// Assigns this scene to one of the 64 output channels; scenes on
    /// higher channels draw on top.  A later assignment to the same
    /// channel overwrites the earlier one, last writer wins.  Fails with
    /// `InvalidOperation` exactly for channels 64 and above.
    pub fn set_to_channel(&self, ctx: &mut ObsContext, channel: u32) -> (r: Result<(), ObsError>)
        requires
            old(ctx).wf(),
            self.valid(old(ctx).core_view()),
        ensures
            final(ctx).wf(),
            !old(ctx).alive() ==> (r == Err::<(), ObsError>(ObsError::ThreadFailure) && *final(ctx)
                == *old(ctx)),
            old(ctx).alive() && channel >= 64 ==> (r matches Err(e) && e is InvalidOperation
                && *final(ctx) == *old(ctx)),
            old(ctx).alive() && channel < 64 ==> r == Ok::<(), ObsError>(()) && final(ctx).core_view().channels_view() == old(ctx).core_view().channels_view().update(
                channel as int,
                self.handle_spec(),
            ) && crate::engine::same_objects(old(ctx).core_view(), final(ctx).core_view())
                && crate::engine::same_registry(old(ctx).core_view(), final(ctx).core_view())
                && crate::engine::same_counts(old(ctx).core_view(), final(ctx).core_view())
                && final(ctx).alive(),
    {
        if !ctx.is_alive() {
            return Err(ObsError::ThreadFailure);
        }
        if channel >= MAX_CHANNELS {
            return Err(ObsError::InvalidOperation("channel index out of bounds".to_owned()));
        }
        match ctx.dispatch(NativeRequest::SetChannelSource { channel, scene: self.handle }) {
            Ok(_) => Ok(()),
            Err(e) => Err(e),
        }
    }

    /// An older name for `set_to_channel`, kept so existing callers carry
    /// over.
    pub fn add_and_set(&self, ctx: &mut ObsContext, channel: u32) -> (r: Result<(), ObsError>)
        requires
            old(ctx).wf(),
            self.valid(old(ctx).core_view()),
        ensures
            final(ctx).wf(),
            !old(ctx).alive() ==> (r == Err::<(), ObsError>(ObsError::ThreadFailure) && *final(ctx)
                == *old(ctx)),
            old(ctx).alive() && channel >= 64 ==> (r matches Err(e) && e is InvalidOperation
                && *final(ctx) == *old(ctx)),
            old(ctx).alive() && channel < 64 ==> r == Ok::<(), ObsError>(()) && final(ctx).core_view().channels_view() == old(ctx).core_view().channels_view().update(
                channel as int,
                self.handle_spec(),
            ) && crate::engine::same_objects(old(ctx).core_view(), final(ctx).core_view())
                && crate::engine::same_registry(old(ctx).core_view(), final(ctx).core_view())
                && crate::engine::same_counts(old(ctx).core_view(), final(ctx).core_view())
                && final(ctx).alive(),
    {
        self.set_to_channel(ctx, channel)
    }

    /// The scene's own source facet, as a tagged handle; assigning the
    /// scene to a channel hands this source to the engine.
    pub fn get_scene_source_ptr(&self) -> (r: NativeHandle)
        ensures
            r == (NativeHandle { raw: self.handle_spec(), kind: ObsObjectKind::Source }),
    {
        NativeHandle { raw: self.handle, kind: ObsObjectKind::Source }
    }

    /// Clears this scene's assignment of one of the 64 output channels.
    /// Fails with `InvalidOperation` exactly for channels 64 and above.
    pub fn remove_from_channel(&self, ctx: &mut ObsContext, channel: u32) -> (r: Result<
        (),
        ObsError,
    >)
        requires
            old(ctx).wf(),
            self.valid(old(ctx).core_view()),
        ensures
            final(ctx).wf(),
            !old(ctx).alive() ==> (r == Err::<(), ObsError>(ObsError::ThreadFailure) && *final(ctx)
                == *old(ctx)),
            old(ctx).alive() && channel >= 64 ==> (r matches Err(e) && e is InvalidOperation
                && *final(ctx) == *old(ctx)),
            old(ctx).alive() && channel < 64 ==> r == Ok::<(), ObsError>(()) && final(ctx).core_view().channels_view() == old(ctx).core_view().channels_view().update(
                channel as int,
                0,
            ) && crate::engine::same_objects(old(ctx).core_view(), final(ctx).core_view())
                && crate::engine::same_registry(old(ctx).core_view(), final(ctx).core_view())
                && crate::engine::same_counts(old(ctx).core_view(), final(ctx).core_view())
                && final(ctx).alive(),
    {
        if !ctx.is_alive() {
            return Err(ObsError::ThreadFailure);
        }
        if channel >= MAX_CHANNELS {
            return Err(ObsError::InvalidOperation("channel index out of bounds".to_owned()));
        }
        match ctx.dispatch(NativeRequest::SetChannelSource { channel, scene: 0 }) {
            Ok(_) => Ok(()),
            Err(e) => Err(e),
        }
    }

    /// Creates the described source and attaches it to this scene.  The
    /// scene records the membership; the returned reference is the
    /// caller's.
    pub fn add_source(&self, ctx: &mut ObsContext, info: SourceInfo) -> (r: Result<
        ObsSourceRef,
        ObsError,
    >)
        requires
            old(ctx).wf(),
            self.valid(old(ctx).core_view()),
        ensures
            final(ctx).wf(),
            !old(ctx).alive() ==> (r == Err::<ObsSourceRef, ObsError>(ObsError::ThreadFailure)
                && *final(ctx) == *old(ctx)),
            old(ctx).alive() ==> (r is Err <==> old(ctx).core_view().objects_view().len() + 2
                > usize::MAX),
            old(ctx).alive() ==> match r {
                Ok(src) => {
                    &&& src.valid(final(ctx).core_view())
                    &&& src.name_view() == info.name@
                    &&& src.id_view() == info.id@
                    &&& src.handle_spec() == old(ctx).core_view().objects_view().len() + 1
                    &&& final(ctx).core_view().atts_view() == old(ctx).core_view().atts_view().push(crate::engine::Attachment {
                        scene: self.handle_spec(),
                        source: src.handle_spec(),
                        item: (old(ctx).core_view().objects_view().len() + 2) as usize,
                    })
                    &&& slot_of(final(ctx).core_view().objects_view(), src.handle_spec()).shares
                        == 1
                    &&& slot_of(
                        final(ctx).core_view().objects_view(),
                        src.handle_spec(),
                    ).body->SourceBody_id@ == info.id@
                    &&& slot_of(
                        final(ctx).core_view().objects_view(),
                        src.handle_spec(),
                    ).body->SourceBody_name@ == info.name@
                    &&& ({
                        let stored = slot_of(
                            final(ctx).core_view().objects_view(),
                            src.handle_spec(),
                        ).body->SourceBody_settings;
                        &&& (info.settings matches Some(d) ==> stored == d)
                        &&& (info.settings is None ==> stored.user_view().len() == 0
                            && stored.default_view().len() == 0)
                    })
                    &&& final(ctx).core_view().retains() == old(ctx).core_view().retains() + 1
                    &&& final(ctx).core_view().releases() == old(ctx).core_view().releases()
                    &&& final(ctx).core_view().channels_view() == old(ctx).core_view().channels_view()
                    &&& final(ctx).alive()
                },
                Err(e) => e is NullPointer && unchanged(old(ctx).core_view(), final(ctx).core_view()),
            },
    {
        if !ctx.is_alive() {
            return Err(ObsError::ThreadFailure);
        }
        let ref_name = ObsString::from_string(info.name.to_text());
        let ref_id = ObsString::from_string(info.id.to_text());
        let settings = match info.settings {
            Some(d) => d,
            None => ObsData::new(),
        };
        match ctx.dispatch(NativeRequest::AttachNewSource {
            scene: self.handle,
            id: info.id.into_text(),
            name: info.name.into_text(),
            settings,
        }) {
            Ok(NativeResponse::HandlePair(s, _item)) => Ok(ObsSourceRef::from_parts(
                s,
                ref_name,
                ref_id,
            )),
            Ok(_) => Err(ObsError::NullPointer),
            Err(e) => Err(e),
        }
    }

    /// Finds a source of this scene by name and hands back a fresh
    /// reference to it, or `None` when no member has that name.
    pub fn get_source_mut(&self, ctx: &mut ObsContext, name: &str) -> (r: Result<
        Option<ObsSourceRef>,
        ObsError,
    >)
        requires
            old(ctx).wf(),
            self.valid(old(ctx).core_view()),
        ensures
            final(ctx).wf(),
            !old(ctx).alive() ==> (r == Err::<Option<ObsSourceRef>, ObsError>(
                ObsError::ThreadFailure,
            ) && *final(ctx) == *old(ctx)),
            old(ctx).alive() ==> match r {
                Ok(found) => match found {
                    Some(src) => {
                        &&& src.valid(final(ctx).core_view())
                        &&& src.name_view() == name@
                        &&& has_attachment(
                            old(ctx).core_view().atts_view(),
                            self.handle_spec(),
                            src.handle_spec(),
                        )
                        &&& crate::engine::same_registry(
                            old(ctx).core_view(),
                            final(ctx).core_view(),
                        )
                        &&& crate::engine::same_counts(old(ctx).core_view(), final(ctx).core_view())
                        &&& final(ctx).alive()
                    },
                    None => *final(ctx) == *old(ctx) && (forall|k: int|
                        0 <= k < old(ctx).core_view().atts_view().len()
                            && #[trigger] old(ctx).core_view().atts_view()[k].scene
                            == self.handle_spec() ==> slot_of(
                            old(ctx).core_view().objects_view(),
                            old(ctx).core_view().atts_view()[k].source,
                        ).body->SourceBody_name@ != name@),
                },
                Err(e) => e is InvalidOperation && *final(ctx) == *old(ctx),
            },
    {
        if !ctx.is_alive() {
            return Err(ObsError::ThreadFailure);
        }
        match ctx.find_source_in_scene(self.handle, name) {
            None => Ok(None),
            Some(s) => {
                let shares = ctx.slot_shares(s);
                if shares == u64::MAX {
                    return Err(ObsError::InvalidOperation("reference count saturated".to_owned()));
                }
                let (id_text, name_text) = ctx.source_strings(s);
                match ctx.dispatch(NativeRequest::AddRef { handle: s }) {
                    Ok(_) => Ok(Some(ObsSourceRef::from_parts(
                        s,
                        ObsString::from_string(name_text),
                        ObsString::from_string(id_text),
                    ))),
                    Err(e) => Err(e),
                }
            },
        }
    }

    /// Detaches the given source from this scene, removing its scene item;
    /// the source itself is released only when nothing else keeps it.
    /// Fails with `SourceNotFound` exactly when the source is not attached.
    pub fn remove_source(&self, ctx: &mut ObsContext, source: &ObsSourceRef) -> (r: Result<
        (),
        ObsError,
    >)
        requires
            old(ctx).wf(),
            self.valid(old(ctx).core_view()),
        ensures
            final(ctx).wf(),
            !old(ctx).alive() ==> (r == Err::<(), ObsError>(ObsError::ThreadFailure) && *final(ctx)
                == *old(ctx)),
            old(ctx).alive() ==> crate::engine::detach_rel(
                old(ctx).core_view(),
                self.handle_spec(),
                source.handle_spec(),
                final(ctx).core_view(),
                r,
            ) && final(ctx).alive(),
    {
        if !ctx.is_alive() {
            return Err(ObsError::ThreadFailure);
        }
        match ctx.dispatch(NativeRequest::DetachSource {
            scene: self.handle,
            source: source.raw_handle(),
        }) {
            Ok(_) => Ok(()),
            Err(e) => Err(e),
        }
    }

    /// Attaches a filter to the given source of this scene.
    pub fn add_scene_filter(&self, ctx: &mut ObsContext, source: &ObsSourceRef, filter: &ObsFilterRef) -> (r: Result<(), ObsError>)
        requires
            old(ctx).wf(),
            self.valid(old(ctx).core_view()),
        ensures
            final(ctx).wf(),
            !old(ctx).alive() ==> (r == Err::<(), ObsError>(ObsError::ThreadFailure) && *final(ctx)
                == *old(ctx)),
            old(ctx).alive() ==> r == Ok::<(), ObsError>(()) && final(ctx).core_view().filter_links_view() == old(ctx).core_view().filter_links_view().push(
                (source.handle_spec(), filter.handle_spec()),
            ) && crate::engine::same_objects(old(ctx).core_view(), final(ctx).core_view()) && final(ctx).alive(),
    {
        if !ctx.is_alive() {
            return Err(ObsError::ThreadFailure);
        }
        match ctx.dispatch(NativeRequest::FilterAttach {
            source: source.raw_handle(),
            filter: filter.raw_handle(),
        }) {
            Ok(_) => Ok(()),
            Err(e) => Err(e),
        }
    }

    /// Detaches a filter from the given source of this scene.
    pub fn remove_scene_filter(&self, ctx: &mut ObsContext, source: &ObsSourceRef, filter: &ObsFilterRef) -> (r: Result<(), ObsError>)
        requires
            old(ctx).wf(),
            self.valid(old(ctx).core_view()),
        ensures
            final(ctx).wf(),
            !old(ctx).alive() ==> (r == Err::<(), ObsError>(ObsError::ThreadFailure) && *final(ctx)
                == *old(ctx)),
            old(ctx).alive() ==> r == Ok::<(), ObsError>(()) && crate::engine::filter_unlink_rel(
                old(ctx).core_view(),
                source.handle_spec(),
                filter.handle_spec(),
                final(ctx).core_view(),
                exists|i: int|
                    0 <= i < old(ctx).core_view().filter_links_view().len() && old(ctx).core_view().filter_links_view()[i] == ((
                        source.handle_spec(),
                        filter.handle_spec(),
                    )),
            ) && crate::engine::same_objects(old(ctx).core_view(), final(ctx).core_view()) && final(ctx).alive(),
    {
        if !ctx.is_alive() {
            return Err(ObsError::ThreadFailure);
        }
        match ctx.dispatch(NativeRequest::FilterDetach {
            source: source.raw_handle(),
            filter: filter.raw_handle(),
        }) {
            Ok(_) => Ok(()),
            Err(e) => Err(e),
        }
    }

    /// The scene item placing the given source in this scene, as a tagged
    /// handle; `SourceNotFound` when the source is not attached.
    pub fn get_scene_item_ptr(&self, ctx: &ObsContext, source: &ObsSourceRef) -> (r: Result<
        NativeHandle,
        ObsError,
    >)
        requires
            ctx.wf(),
        ensures
            match r {
                Ok(h) => h.kind == ObsObjectKind::SceneItem && has_attachment(
                    ctx.core_view().atts_view(),
                    self.handle_spec(),
                    source.handle_spec(),
                ) && crate::engine::attachment_item(
                    ctx.core_view().atts_view(),
                    self.handle_spec(),
                    source.handle_spec(),
                ) == Some(h.raw),
                Err(e) => e is SourceNotFound && !has_attachment(
                    ctx.core_view().atts_view(),
                    self.handle_spec(),
                    source.handle_spec(),
                ),
            },
    {
        match ctx.find_attachment(self.handle, source.raw_handle()) {
            Some((i, item)) => {
                proof {
                    crate::engine::lemma_attachment_item_at(
                        ctx.core_view().atts_view(),
                        i as int,
                        self.handle_spec(),
                        source.handle_spec(),
                    );
                }
                Ok(NativeHandle { raw: item, kind: ObsObjectKind::SceneItem })
            },
            None => Err(ObsError::SourceNotFound),
        }
    }

    /// How many sources this scene holds.
    pub fn source_count(&self, ctx: &ObsContext) -> (r: usize)
        ensures
            r == count_atts(ctx.core_view().atts_view(), self.handle_spec()),
    {
        ctx.count_scene_members(self.handle)
    }

    /// Whether the scene-item registry has an entry for this scene and the
    /// given source.
    pub fn has_source_item(&self, ctx: &ObsContext, source: &ObsSourceRef) -> (r: bool)
        ensures
            r == has_attachment(
                ctx.core_view().atts_view(),
                self.handle_spec(),
                source.handle_spec(),
            ),
    {
        match ctx.find_attachment(self.handle, source.raw_handle()) {
            Some(_) => true,
            None => false,
        }
    }

    /// Reads the full placement of the given source in this scene.
    pub fn get_transform_info(&self, ctx: &mut ObsContext, source: &ObsSourceRef) -> (r: Result<
        ObsTransformInfo,
        ObsError,
    >)
        requires
            old(ctx).wf(),
            self.valid(old(ctx).core_view()),
        ensures
            final(ctx).wf(),
            !old(ctx).alive() ==> (r == Err::<ObsTransformInfo, ObsError>(ObsError::ThreadFailure)
                && *final(ctx) == *old(ctx)),
            old(ctx).alive() ==> unchanged(old(ctx).core_view(), final(ctx).core_view()) && final(ctx).alive(),
            old(ctx).alive() ==> match r {
                Ok(info) => has_attachment(
                    old(ctx).core_view().atts_view(),
                    self.handle_spec(),
                    source.handle_spec(),
                ) && forall|i: int|
                    0 <= i < old(ctx).core_view().atts_view().len() && #[trigger] old(ctx).core_view().atts_view()[i].scene == self.handle_spec() && old(ctx).core_view().atts_view()[i].source == source.handle_spec() ==> info == slot_of(
                        old(ctx).core_view().objects_view(),
                        old(ctx).core_view().atts_view()[i].item,
                    ).body->ItemBody_transform,
                Err(e) => e is SourceNotFound && !has_attachment(
                    old(ctx).core_view().atts_view(),
                    self.handle_spec(),
                    source.handle_spec(),
                ),
            },
    {
        if !ctx.is_alive() {
            return Err(ObsError::ThreadFailure);
        }
        match ctx.find_attachment(self.handle, source.raw_handle()) {
            None => Err(ObsError::SourceNotFound),
            Some((i, item)) => {
                proof {
                    assert(crate::engine::att_wf(
                        ctx.core_view().objects_view(),
                        ctx.core_view().atts_view()[i as int],
                    ));
                }
                match ctx.dispatch(NativeRequest::ItemGetInfo { item }) {
                    Ok(NativeResponse::Info(info)) => {
                        proof {
                            lemma_unique_attachment(
                                ctx.core_view(),
                                self.handle_spec(),
                                source.handle_spec(),
                                i as int,
                            );
                        }
                        Ok(info)
                    },
                    Ok(_) => Err(ObsError::SourceNotFound),
                    Err(e) => Err(e),
                }
            },
        }
    }

    /// Replaces the full placement of the given source in this scene.
    pub fn set_transform_info(&self, ctx: &mut ObsContext, source: &ObsSourceRef, info: &ObsTransformInfo) -> (r: Result<(), ObsError>)
        requires
            old(ctx).wf(),
            self.valid(old(ctx).core_view()),
        ensures
            final(ctx).wf(),
            !old(ctx).alive() ==> (r == Err::<(), ObsError>(ObsError::ThreadFailure) && *final(ctx)
                == *old(ctx)),
            old(ctx).alive() ==> match r {
                Ok(u) => has_attachment(
                    old(ctx).core_view().atts_view(),
                    self.handle_spec(),
                    source.handle_spec(),
                ) && forall|i: int|
                    0 <= i < old(ctx).core_view().atts_view().len() && #[trigger] old(ctx).core_view().atts_view()[i].scene == self.handle_spec() && old(ctx).core_view().atts_view()[i].source == source.handle_spec() ==> ({
                        let item = old(ctx).core_view().atts_view()[i].item;
                        &&& slot_of(
                            final(ctx).core_view().objects_view(),
                            item,
                        ).body->ItemBody_transform == *info
                        &&& slot_of(final(ctx).core_view().objects_view(), item).body->ItemBody_locked
                            == slot_of(
                            old(ctx).core_view().objects_view(),
                            item,
                        ).body->ItemBody_locked
                        &&& forall|j: int|
                            0 <= j < old(ctx).core_view().objects_view().len() && j != item - 1
                                ==> final(ctx).core_view().objects_view()[j] == #[trigger] old(ctx).core_view().objects_view()[j]
                        &&& crate::engine::same_registry(old(ctx).core_view(), final(ctx).core_view())
                        &&& crate::engine::same_counts(old(ctx).core_view(), final(ctx).core_view())
                        &&& final(ctx).alive()
                    }),
                Err(e) => e is SourceNotFound && !has_attachment(
                    old(ctx).core_view().atts_view(),
                    self.handle_spec(),
                    source.handle_spec(),
                ) && *final(ctx) == *old(ctx),
            },
    {
        if !ctx.is_alive() {
            return Err(ObsError::ThreadFailure);
        }
        let ghost pre = ctx.core_view();
        match ctx.find_attachment(self.handle, source.raw_handle()) {
            None => Err(ObsError::SourceNotFound),
            Some((i, item)) => {
                proof {
                    assert(crate::engine::att_wf(
                        ctx.core_view().objects_view(),
                        ctx.core_view().atts_view()[i as int],
                    ));
                }
                match ctx.dispatch(NativeRequest::ItemSetInfo { item, info: *info }) {
                    Ok(_) => {
                        proof {
                            lemma_unique_attachment(pre, self.handle_spec(), source.handle_spec(), i as int);
                            let s2 = ObjectSlot {
                                shares: 0u64,
                                body: ObjectBody::ItemBody {
                                    scene: slot_of(pre.objects_view(), item).body->ItemBody_scene,
                                    source: slot_of(pre.objects_view(), item).body->ItemBody_source,
                                    locked: slot_of(pre.objects_view(), item).body->ItemBody_locked,
                                    transform: *info,
                                },
                            };
                            crate::engine::lemma_update_slot(pre.objects_view(), item, s2);
                        }
                        Ok(())
                    },
                    Err(e) => Err(e),
                }
            },
        }
    }

    /// Reads the position of the given source in this scene.
    pub fn get_source_position(&self, ctx: &mut ObsContext, source: &ObsSourceRef) -> (r: Result<
        Vec2,
        ObsError,
    >)
        requires
            old(ctx).wf(),
            self.valid(old(ctx).core_view()),
        ensures
            final(ctx).wf(),
            !old(ctx).alive() ==> (r == Err::<Vec2, ObsError>(ObsError::ThreadFailure) && *final(ctx)
                == *old(ctx)),
            old(ctx).alive() ==> unchanged(old(ctx).core_view(), final(ctx).core_view()) && final(ctx).alive(),
            old(ctx).alive() ==> match r {
                Ok(p) => has_attachment(
                    old(ctx).core_view().atts_view(),
                    self.handle_spec(),
                    source.handle_spec(),
                ) && forall|i: int|
                    0 <= i < old(ctx).core_view().atts_view().len() && #[trigger] old(ctx).core_view().atts_view()[i].scene == self.handle_spec() && old(ctx).core_view().atts_view()[i].source == source.handle_spec() ==> p == slot_of(
                        old(ctx).core_view().objects_view(),
                        old(ctx).core_view().atts_view()[i].item,
                    ).body->ItemBody_transform.pos,
                Err(e) => e is SourceNotFound && !has_attachment(
                    old(ctx).core_view().atts_view(),
                    self.handle_spec(),
                    source.handle_spec(),
                ),
            },
    {
        match self.get_transform_info(ctx, source) {
            Ok(info) => Ok(info.get_pos()),
            Err(e) => Err(e),
        }
    }

    /// Reads the scale of the given source in this scene, in integer
    /// units.
    pub fn get_source_scale(&self, ctx: &mut ObsContext, source: &ObsSourceRef) -> (r: Result<
        Vec2,
        ObsError,
    >)
        requires
            old(ctx).wf(),
            self.valid(old(ctx).core_view()),
        ensures
            final(ctx).wf(),
            !old(ctx).alive() ==> (r == Err::<Vec2, ObsError>(ObsError::ThreadFailure) && *final(ctx)
                == *old(ctx)),
            old(ctx).alive() ==> unchanged(old(ctx).core_view(), final(ctx).core_view()) && final(ctx).alive(),
            old(ctx).alive() ==> match r {
                Ok(p) => has_attachment(
                    old(ctx).core_view().atts_view(),
                    self.handle_spec(),
                    source.handle_spec(),
                ) && forall|i: int|
                    0 <= i < old(ctx).core_view().atts_view().len() && #[trigger] old(ctx).core_view().atts_view()[i].scene == self.handle_spec() && old(ctx).core_view().atts_view()[i].source == source.handle_spec() ==> p == slot_of(
                        old(ctx).core_view().objects_view(),
                        old(ctx).core_view().atts_view()[i].item,
                    ).body->ItemBody_transform.scale,
                Err(e) => e is SourceNotFound && !has_attachment(
                    old(ctx).core_view().atts_view(),
                    self.handle_spec(),
                    source.handle_spec(),
                ),
            },
    {
        match self.get_transform_info(ctx, source) {
            Ok(info) => Ok(info.get_scale()),
            Err(e) => Err(e),
        }
    }

    /// Moves the given source within this scene, keeping the rest of its
    /// placement.
    pub fn set_source_position(&self, ctx: &mut ObsContext, source: &ObsSourceRef, position: Vec2) -> (r: Result<(), ObsError>)
        requires
            old(ctx).wf(),
            self.valid(old(ctx).core_view()),
        ensures
            final(ctx).wf(),
            !old(ctx).alive() ==> (r == Err::<(), ObsError>(ObsError::ThreadFailure) && *final(ctx)
                == *old(ctx)),
            old(ctx).alive() ==> match r {
                Ok(u) => has_attachment(
                    old(ctx).core_view().atts_view(),
                    self.handle_spec(),
                    source.handle_spec(),
                ) && forall|i: int|
                    0 <= i < old(ctx).core_view().atts_view().len() && #[trigger] old(ctx).core_view().atts_view()[i].scene == self.handle_spec() && old(ctx).core_view().atts_view()[i].source == source.handle_spec() ==> ({
                        let item = old(ctx).core_view().atts_view()[i].item;
                        &&& slot_of(final(ctx).core_view().objects_view(), item).body->ItemBody_transform
                            == (ObsTransformInfo {
                            pos: position,
                            ..slot_of(
                                old(ctx).core_view().objects_view(),
                                item,
                            ).body->ItemBody_transform
                        })
                        &&& slot_of(final(ctx).core_view().objects_view(), item).body->ItemBody_locked
                            == slot_of(
                            old(ctx).core_view().objects_view(),
                            item,
                        ).body->ItemBody_locked
                        &&& forall|j: int|
                            0 <= j < old(ctx).core_view().objects_view().len() && j != item - 1
                                ==> final(ctx).core_view().objects_view()[j] == #[trigger] old(ctx).core_view().objects_view()[j]
                        &&& crate::engine::same_registry(old(ctx).core_view(), final(ctx).core_view())
                        &&& crate::engine::same_counts(old(ctx).core_view(), final(ctx).core_view())
                        &&& final(ctx).alive()
                    }),
                Err(e) => e is SourceNotFound && !has_attachment(
                    old(ctx).core_view().atts_view(),
                    self.handle_spec(),
                    source.handle_spec(),
                ) && unchanged(old(ctx).core_view(), final(ctx).core_view()),
            },
    {
        if !ctx.is_alive() {
            return Err(ObsError::ThreadFailure);
        }
        let current = match self.get_transform_info(ctx, source) {
            Ok(info) => info,
            Err(e) => {
                return Err(e);
            },
        };
        let updated = ObsTransformInfo { pos: position, ..current };
        self.set_transform_info(ctx, source, &updated)
    }

    /// Rescales the given source within this scene, keeping the rest of
    /// its placement.
    pub fn set_source_scale(&self, ctx: &mut ObsContext, source: &ObsSourceRef, scale: Vec2) -> (r: Result<(), ObsError>)
        requires
            old(ctx).wf(),
            self.valid(old(ctx).core_view()),
        ensures
            final(ctx).wf(),
            !old(ctx).alive() ==> (r == Err::<(), ObsError>(ObsError::ThreadFailure) && *final(ctx)
                == *old(ctx)),
            old(ctx).alive() ==> match r {
                Ok(u) => has_attachment(
                    old(ctx).core_view().atts_view(),
                    self.handle_spec(),
                    source.handle_spec(),
                ) && forall|i: int|
                    0 <= i < old(ctx).core_view().atts_view().len() && #[trigger] old(ctx).core_view().atts_view()[i].scene == self.handle_spec() && old(ctx).core_view().atts_view()[i].source == source.handle_spec() ==> ({
                        let item = old(ctx).core_view().atts_view()[i].item;
                        &&& slot_of(final(ctx).core_view().objects_view(), item).body->ItemBody_transform
                            == (ObsTransformInfo {
                            scale,
                            ..slot_of(
                                old(ctx).core_view().objects_view(),
                                item,
                            ).body->ItemBody_transform
                        })
                        &&& slot_of(final(ctx).core_view().objects_view(), item).body->ItemBody_locked
                            == slot_of(
                            old(ctx).core_view().objects_view(),
                            item,
                        ).body->ItemBody_locked
                        &&& forall|j: int|
                            0 <= j < old(ctx).core_view().objects_view().len() && j != item - 1
                                ==> final(ctx).core_view().objects_view()[j] == #[trigger] old(ctx).core_view().objects_view()[j]
                        &&& crate::engine::same_registry(old(ctx).core_view(), final(ctx).core_view())
                        &&& crate::engine::same_counts(old(ctx).core_view(), final(ctx).core_view())
                        &&& final(ctx).alive()
                    }),
                Err(e) => e is SourceNotFound && !has_attachment(
                    old(ctx).core_view().atts_view(),
                    self.handle_spec(),
                    source.handle_spec(),
                ) && unchanged(old(ctx).core_view(), final(ctx).core_view()),
            },
    {
        if !ctx.is_alive() {
            return Err(ObsError::ThreadFailure);
        }
        let current = match self.get_transform_info(ctx, source) {
            Ok(info) => info,
            Err(e) => {
                return Err(e);
            },
        };
        let updated = ObsTransformInfo { scale, ..current };
        self.set_transform_info(ctx, source, &updated)
    }

    /// Locks or unlocks the given source's scene item; a locked item
    /// refuses `fit_source_to_screen`.
    pub fn set_source_locked(&self, ctx: &mut ObsContext, source: &ObsSourceRef, locked: bool) -> (r: Result<(), ObsError>)
        requires
            old(ctx).wf(),
            self.valid(old(ctx).core_view()),
        ensures
            final(ctx).wf(),
            !old(ctx).alive() ==> (r == Err::<(), ObsError>(ObsError::ThreadFailure) && *final(ctx)
                == *old(ctx)),
            old(ctx).alive() ==> match r {
                Ok(u) => has_attachment(
                    old(ctx).core_view().atts_view(),
                    self.handle_spec(),
                    source.handle_spec(),
                ) && forall|i: int|
                    0 <= i < old(ctx).core_view().atts_view().len() && #[trigger] old(ctx).core_view().atts_view()[i].scene == self.handle_spec() && old(ctx).core_view().atts_view()[i].source == source.handle_spec() ==> ({
                        let item = old(ctx).core_view().atts_view()[i].item;
                        &&& slot_of(final(ctx).core_view().objects_view(), item).body->ItemBody_locked
                            == locked
                        &&& slot_of(
                            final(ctx).core_view().objects_view(),
                            item,
                        ).body->ItemBody_transform == slot_of(
                            old(ctx).core_view().objects_view(),
                            item,
                        ).body->ItemBody_transform
                    }),
                Err(e) => e is SourceNotFound && !has_attachment(
                    old(ctx).core_view().atts_view(),
                    self.handle_spec(),
                    source.handle_spec(),
                ) && *final(ctx) == *old(ctx),
            },
    {
        if !ctx.is_alive() {
            return Err(ObsError::ThreadFailure);
        }
        let ghost pre = ctx.core_view();
        match ctx.find_attachment(self.handle, source.raw_handle()) {
            None => Err(ObsError::SourceNotFound),
            Some((i, item)) => {
                proof {
                    assert(crate::engine::att_wf(
                        ctx.core_view().objects_view(),
                        ctx.core_view().atts_view()[i as int],
                    ));
                }
                match ctx.dispatch(NativeRequest::ItemSetLocked { item, locked }) {
                    Ok(_) => {
                        proof {
                            lemma_unique_attachment(pre, self.handle_spec(), source.handle_spec(), i as int);
                            let s2 = ObjectSlot {
                                shares: 0u64,
                                body: ObjectBody::ItemBody {
                                    scene: slot_of(pre.objects_view(), item).body->ItemBody_scene,
                                    source: slot_of(pre.objects_view(), item).body->ItemBody_source,
                                    locked,
                                    transform: slot_of(
                                        pre.objects_view(),
                                        item,
                                    ).body->ItemBody_transform,
                                },
                            };
                            crate::engine::lemma_update_slot(pre.objects_view(), item, s2);
                        }
                        Ok(())
                    },
                    Err(e) => Err(e),
                }
            },
        }
    }

    /// Fits the given source to the screen: a locked item is left as it is
    /// and `Ok(false)` comes back; an unlocked item's placement is reset
    /// so that its bounds equal the current output base resolution, and
    /// `Ok(true)` comes back.
    pub fn fit_source_to_screen(&self, ctx: &mut ObsContext, source: &ObsSourceRef) -> (r: Result<
        bool,
        ObsError,
    >)
        requires
            old(ctx).wf(),
            self.valid(old(ctx).core_view()),
        ensures
            final(ctx).wf(),
            !old(ctx).alive() ==> (r == Err::<bool, ObsError>(ObsError::ThreadFailure) && *final(ctx)
                == *old(ctx)),
            old(ctx).alive() ==> match r {
                Ok(fitted) => has_attachment(
                    old(ctx).core_view().atts_view(),
                    self.handle_spec(),
                    source.handle_spec(),
                ) && forall|i: int|
                    0 <= i < old(ctx).core_view().atts_view().len() && #[trigger] old(ctx).core_view().atts_view()[i].scene == self.handle_spec() && old(ctx).core_view().atts_view()[i].source == source.handle_spec() ==> fit_outcome(
                        old(ctx).core_view(),
                        old(ctx).core_view().atts_view()[i].item,
                        final(ctx).core_view(),
                        Ok(fitted),
                    ),
                Err(e) => e is SourceNotFound && !has_attachment(
                    old(ctx).core_view().atts_view(),
                    self.handle_spec(),
                    source.handle_spec(),
                ) && *final(ctx) == *old(ctx),
            },
    {
        if !ctx.is_alive() {
            return Err(ObsError::ThreadFailure);
        }
        let ghost pre = ctx.core_view();
        match ctx.find_attachment(self.handle, source.raw_handle()) {
            None => Err(ObsError::SourceNotFound),
            Some((i, item)) => {
                proof {
                    assert(crate::engine::att_wf(
                        ctx.core_view().objects_view(),
                        ctx.core_view().atts_view()[i as int],
                    ));
                    lemma_unique_attachment(pre, self.handle_spec(), source.handle_spec(), i as int);
                }
                let locked = match ctx.dispatch(NativeRequest::ItemGetLocked { item }) {
                    Ok(NativeResponse::Flag(b)) => b,
                    Ok(_) => false,
                    Err(e) => {
                        return Err(e);
                    },
                };
                if locked {
                    return Ok(false);
                }
                let video = match ctx.dispatch(NativeRequest::GetVideo) {
                    Ok(NativeResponse::Video(v)) => v,
                    Ok(_) => crate::graphics::ObsVideoInfo::new(0, 0, 0, 0),
                    Err(e) => {
                        return Err(e);
                    },
                };
                let current = match ctx.dispatch(NativeRequest::ItemGetInfo { item }) {
                    Ok(NativeResponse::Info(t)) => t,
                    Ok(_) => ObsTransformInfoBuilder::new().build(0, 0),
                    Err(e) => {
                        return Err(e);
                    },
                };
                let built = ObsTransformInfoBuilder::new().set_bounds_type(
                    ObsBoundsType::ScaleInner,
                ).set_crop_to_bounds(current.get_crop_to_bounds()).build(
                    video.base_width,
                    video.base_height,
                );
                proof {
                    assert(built == fit_transform(
                        current.crop_to_bounds,
                        video.base_width,
                        video.base_height,
                    ));
                }
                match ctx.dispatch(NativeRequest::ItemSetInfo { item, info: built }) {
                    Ok(_) => Ok(true),
                    Err(e) => Err(e),
                }
            },
        }
    }

    /// Drops this scene reference: the last drop detaches every member
    /// source and releases the scene.
    pub fn release(self, ctx: &mut ObsContext) -> (r: Result<(), ObsError>)
        requires
            old(ctx).wf(),
            self.valid(old(ctx).core_view()),
        ensures
            final(ctx).wf(),
            !old(ctx).alive() ==> (r == Err::<(), ObsError>(ObsError::ThreadFailure) && *final(ctx)
                == *old(ctx)),
            old(ctx).alive() ==> r == Ok::<(), ObsError>(()) && release_rel(
                old(ctx).core_view(),
                self.handle_spec(),
                final(ctx).core_view(),
            ) && final(ctx).alive(),
    {
        ctx.release_handle(self.handle)
    }
}

impl ObsContext {
    /// Creates a scene with the given name.
    pub fn scene(&mut self, name: &str) -> (r: Result<ObsSceneRef, ObsError>)
        requires
            old(self).wf(),
        ensures
            final(self).wf(),
            !old(self).alive() ==> (r == Err::<ObsSceneRef, ObsError>(ObsError::ThreadFailure)
                && *final(self) == *old(self)),
            old(self).alive() ==> (r is Err <==> old(self).core_view().objects_view().len()
                == usize::MAX),
            old(self).alive() ==> match r {
                Ok(scene) => {
                    &&& scene.valid(final(self).core_view())
                    &&& scene.name_view() == name@
                    &&& scene.handle_spec() == old(self).core_view().objects_view().len() + 1
                    &&& slot_of(final(self).core_view().objects_view(), scene.handle_spec()).shares
                        == 1
                    &&& final(self).core_view().retains() == old(self).core_view().retains() + 1
                    &&& final(self).core_view().releases() == old(self).core_view().releases()
                    &&& final(self).core_view().atts_view() == old(self).core_view().atts_view()
                    &&& final(self).core_view().channels_view() == old(self).core_view().channels_view()
                    &&& count_atts(final(self).core_view().atts_view(), scene.handle_spec()) == 0
                    &&& final(self).alive()
                },
                Err(e) => e is NullPointer && unchanged(
                    old(self).core_view(),
                    final(self).core_view(),
                ) && final(self).alive(),
            },
    {
        if !self.is_alive() {
            return Err(ObsError::ThreadFailure);
        }
        let ghost pre = self.core_view();
        match self.dispatch(NativeRequest::CreateScene { name: name.to_owned() }) {
            Ok(NativeResponse::Handle(h)) => {
                proof {
                    assert forall|k: int| 0 <= k < pre.atts_view().len() implies (
                    #[trigger] pre.atts_view()[k]).scene != h by {
                        assert(crate::engine::att_wf(pre.objects_view(), pre.atts_view()[k]));
                    }
                    lemma_count_fresh_scene(pre.atts_view(), self.core_view().atts_view(), h);
                }
                Ok(ObsSceneRef { handle: h, name: ObsString::new(name) })
            },
            Ok(_) => Err(ObsError::NullPointer),
            Err(e) => Err(e),
        }
    }
}

impl ObsTransformInfoBuilder {
    /// Builds the transform; unset fields keep the current placement of
    /// the given source in the given scene.
    pub fn build_with_fallback(self, ctx: &mut ObsContext, scene: &ObsSceneRef, source: &ObsSourceRef) -> (r: Result<ObsTransformInfo, ObsError>)
        requires
            old(ctx).wf(),
            scene.valid(old(ctx).core_view()),
        ensures
            final(ctx).wf(),
            !old(ctx).alive() ==> (r == Err::<ObsTransformInfo, ObsError>(ObsError::ThreadFailure)
                && *final(ctx) == *old(ctx)),
            old(ctx).alive() ==> unchanged(old(ctx).core_view(), final(ctx).core_view()) && final(ctx).alive(),
            old(ctx).alive() ==> match r {
                Ok(info) => has_attachment(
                    old(ctx).core_view().atts_view(),
                    scene.handle_spec(),
                    source.handle_spec(),
                ) && forall|i: int|
                    0 <= i < old(ctx).core_view().atts_view().len() && #[trigger] old(ctx).core_view().atts_view()[i].scene == scene.handle_spec() && old(ctx).core_view().atts_view()[i].source == source.handle_spec() ==> info
                        == crate::transform::built_over(
                        self,
                        slot_of(
                            old(ctx).core_view().objects_view(),
                            old(ctx).core_view().atts_view()[i].item,
                        ).body->ItemBody_transform,
                    ),
                Err(e) => e is SourceNotFound && !has_attachment(
                    old(ctx).core_view().atts_view(),
                    scene.handle_spec(),
                    source.handle_spec(),
                ),
            },
    {
        match scene.get_transform_info(ctx, source) {
            Ok(current) => Ok(self.build_over(current)),
            Err(e) => Err(e),
        }
    }
}

/// With a well-formed engine there is at most one attachment row per scene
/// and source pair: any row matching the pair is the one found first.
proof fn lemma_unique_attachment(core: EngineCore, scene: usize, source: usize, i: int)
    requires
        core.wf(),
        0 <= i < core.atts_view().len(),
        core.atts_view()[i].scene == scene,
        core.atts_view()[i].source == source,
    ensures
        forall|j: int|
            0 <= j < core.atts_view().len() && #[trigger] core.atts_view()[j].scene == scene
                && core.atts_view()[j].source == source ==> j == i,
{
    let atts = core.atts_view();
    assert forall|j: int|
        0 <= j < atts.len() && #[trigger] atts[j].scene == scene && atts[j].source == source
            implies j == i by {
        if j < i {
            assert(!(atts[j].scene == atts[i].scene && atts[j].source == atts[i].source));
        } else if i < j {
            assert(!(atts[i].scene == atts[j].scene && atts[i].source == atts[j].source));
        }
    }
}

/// A scene handle that no attachment row names has no members.
proof fn lemma_count_fresh_scene(atts: Seq<crate::engine::Attachment>, atts2: Seq<crate::engine::Attachment>, h: usize)
    requires
        atts2 == atts,
        forall|k: int| 0 <= k < atts.len() ==> (#[trigger] atts[k]).scene != h,
    ensures
        count_atts(atts2, h) == 0,
    decreases atts.len(),
{
    if atts.len() > 0 {
        lemma_count_fresh_scene(atts.drop_last(), atts.drop_last(), h);
    }
}

} // verus!
