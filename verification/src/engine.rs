//! The engine model: one table of native object slots, an attachment
//! registry tying scenes, sources and scene items together, the 64 output
//! channels, and the retain/release accounting.
//!
//! Handles are one-based indexes into the slot table; handle `0` stands
//! for the native null pointer.  A slot, once dead, is never reused, so
//! the retain counter equals the number of counted objects ever created
//! and the release counter equals the number that have died.  Scene items
//! are bookkeeping rows of their scene and source and are not counted in
//! the retain/release pairing, which mirrors how the wrapper pairs one
//! native release with each object reference set it created.

use vstd::prelude::*;

use crate::data::ObsData;
use crate::error::ObsError;
use crate::graphics::ObsVideoInfo;
use crate::graphics::OBS_ALIGN_CENTER;
use crate::graphics::OBS_ALIGN_LEFT;
use crate::graphics::OBS_ALIGN_TOP;
use crate::transform::ObsBoundsType;
use crate::transform::ObsTransformInfo;
use crate::utils::str_eq;

verus! {

/// What a live slot holds, by object kind.
pub enum ObjectBody {
    /// A scene: a composition of sources.
    SceneBody { name: String },
    /// A source: a producer of audio or video.
    SourceBody { id: String, name: String, settings: ObsData },
    /// An output: a consumer such as a recording or a replay buffer.
    OutputBody {
        id: String,
        name: String,
        settings: ObsData,
        active: bool,
        paused: bool,
        replay_path: Option<String>,
    },
    /// A filter that can be attached to sources.
    FilterBody { id: String, name: String },
    /// A scene item: the placement of one source within one scene.
    ItemBody { scene: usize, source: usize, locked: bool, transform: ObsTransformInfo },
}

/// One native object: its live wrapper-reference count and its payload.
pub struct ObjectSlot {
    pub shares: u64,
    pub body: ObjectBody,
}

/// One row of the scene membership registry: the named source is attached
/// to the named scene, placed by the named scene item.
#[derive(Clone, Copy, Debug, PartialEq, Eq, Structural)]
pub struct Attachment {
    pub scene: usize,
    pub source: usize,
    pub item: usize,
}

/// The modeled engine state.
pub struct EngineCore {
    pub(crate) objects: Vec<Option<ObjectSlot>>,
    pub(crate) attachments: Vec<Attachment>,
    pub(crate) filter_links: Vec<(usize, usize)>,
    pub(crate) channels: Vec<usize>,
    pub(crate) retain_calls: u64,
    pub(crate) release_calls: u64,
    pub(crate) proc_calls: u64,
    pub(crate) video: ObsVideoInfo,
}

/// The placement a scene item is born with: origin, unit scale, top-left
/// alignment, no bounding box.
pub open spec fn initial_transform() -> ObsTransformInfo {
    ObsTransformInfo {
        pos: crate::graphics::Vec2 { x: 0, y: 0 },
        scale: crate::graphics::Vec2 { x: 1, y: 1 },
        alignment: OBS_ALIGN_LEFT | OBS_ALIGN_TOP,
        rot: 0,
        bounds: crate::graphics::Vec2 { x: 0, y: 0 },
        bounds_type: ObsBoundsType::Unbounded,
        bounds_alignment: OBS_ALIGN_CENTER,
        crop_to_bounds: false,
    }
}

/// Handle `h` names a live slot of the table.
pub open spec fn live(o: Seq<Option<ObjectSlot>>, h: usize) -> bool {
    1 <= h <= o.len() && o[h - 1] is Some
}

/// The slot a live handle names.
pub open spec fn slot_of(o: Seq<Option<ObjectSlot>>, h: usize) -> ObjectSlot
    recommends
        live(o, h),
{
    o[h - 1]->0
}

/// Handle `h` names a live scene.
pub open spec fn is_scene(o: Seq<Option<ObjectSlot>>, h: usize) -> bool {
    live(o, h) && slot_of(o, h).body is SceneBody
}

/// Handle `h` names a live source.
pub open spec fn is_source(o: Seq<Option<ObjectSlot>>, h: usize) -> bool {
    live(o, h) && slot_of(o, h).body is SourceBody
}

/// Handle `h` names a live output.
pub open spec fn is_output(o: Seq<Option<ObjectSlot>>, h: usize) -> bool {
    live(o, h) && slot_of(o, h).body is OutputBody
}

/// Handle `h` names a live filter.
pub open spec fn is_filter(o: Seq<Option<ObjectSlot>>, h: usize) -> bool {
    live(o, h) && slot_of(o, h).body is FilterBody
}

/// Handle `h` names a live scene item.
pub open spec fn is_item(o: Seq<Option<ObjectSlot>>, h: usize) -> bool {
    live(o, h) && slot_of(o, h).body is ItemBody
}

/// Whether a body takes part in the retain/release pairing.  Scene items
/// do not: they are owned bookkeeping of their scene and source.
pub open spec fn counted(b: ObjectBody) -> bool {
    !(b is ItemBody)
}

/// What one table entry contributes to the live object count.
pub open spec fn live_contrib(e: Option<ObjectSlot>) -> int {
    match e {
        Some(s) => if counted(s.body) {
            1int
        } else {
            0int
        },
        None => 0int,
    }
}

/// How many counted objects are live.
pub open spec fn live_count(o: Seq<Option<ObjectSlot>>) -> int
    decreases o.len(),
{
    if o.len() == 0 {
        0
    } else {
        live_count(o.drop_last()) + live_contrib(o.last())
    }
}

pub proof fn lemma_live_count_push(o: Seq<Option<ObjectSlot>>, e: Option<ObjectSlot>)
    ensures
        live_count(o.push(e)) == live_count(o) + live_contrib(e),
{
    assert(o.push(e).drop_last() =~= o);
}

pub proof fn lemma_live_count_update(o: Seq<Option<ObjectSlot>>, i: int, e: Option<ObjectSlot>)
    requires
        0 <= i < o.len(),
    ensures
        live_count(o.update(i, e)) == live_count(o) - live_contrib(o[i]) + live_contrib(e),
    decreases o.len(),
{
    let t = o.update(i, e);
    if i == o.len() - 1 {
        assert(t.drop_last() =~= o.drop_last());
        assert(t.last() == e);
        assert(o.last() == o[i]);
    } else {
        assert(t.drop_last() =~= o.drop_last().update(i, e));
        assert(t.last() == o.last());
        lemma_live_count_update(o.drop_last(), i, e);
        assert(o.drop_last()[i] == o[i]);
    }
}

pub proof fn lemma_live_count_take_all(o: Seq<Option<ObjectSlot>>)
    ensures
        live_count(o.take(o.len() as int)) == live_count(o),
{
    assert(o.take(o.len() as int) =~= o);
}

/// No leak and no double release: for every sequence of create, clone and
/// drop operations, once no counted object is live the number of native
/// retains equals the number of native releases.
pub proof fn lemma_retain_release_balance(core: EngineCore)
    requires
        core.wf(),
        live_count(core.objects_view()) == 0,
    ensures
        core.retains() == core.releases(),
{
}

pub proof fn lemma_live_count_nonneg(o: Seq<Option<ObjectSlot>>)
    ensures
        live_count(o) >= 0,
    decreases o.len(),
{
    if o.len() > 0 {
        lemma_live_count_nonneg(o.drop_last());
    }
}

/// An attachment row is sound: its scene, source and item are live, of the
/// right kind, and the item links back to the same scene and source.
pub open spec fn att_wf(o: Seq<Option<ObjectSlot>>, a: Attachment) -> bool {
    &&& is_scene(o, a.scene)
    &&& is_source(o, a.source)
    &&& is_item(o, a.item)
    &&& slot_of(o, a.item).body->ItemBody_scene == a.scene
    &&& slot_of(o, a.item).body->ItemBody_source == a.source
}

/// The source is attached to at least one scene.
pub open spec fn source_attached(atts: Seq<Attachment>, h: usize) -> bool {
    exists|i: int| 0 <= i < atts.len() && atts[i].source == h
}

/// There is an attachment row for this scene and source pair.
pub open spec fn has_attachment(atts: Seq<Attachment>, scene: usize, source: usize) -> bool {
    exists|i: int| 0 <= i < atts.len() && atts[i].scene == scene && atts[i].source == source
}

/// The scene item serving a scene and source pair, if any.
pub open spec fn attachment_item(atts: Seq<Attachment>, scene: usize, source: usize) -> Option<usize>
    decreases atts.len(),
{
    if atts.len() == 0 {
        None
    } else if atts[0].scene == scene && atts[0].source == source {
        Some(atts[0].item)
    } else {
        attachment_item(atts.skip(1), scene, source)
    }
}

/// When no two rows share a scene and source pair, a row matching the
/// pair is the one `attachment_item` finds.
pub proof fn lemma_attachment_item_at(atts: Seq<Attachment>, i: int, scene: usize, source: usize)
    requires
        forall|x: int, y: int|
            0 <= x < y < atts.len() ==> !(#[trigger] atts[x].scene == #[trigger] atts[y].scene
                && atts[x].source == atts[y].source),
        0 <= i < atts.len(),
        atts[i].scene == scene,
        atts[i].source == source,
    ensures
        attachment_item(atts, scene, source) == Some(atts[i].item),
    decreases atts.len(),
{
    if atts[0].scene == scene && atts[0].source == source {
        if i > 0 {
            assert(!(atts[0].scene == atts[i].scene && atts[0].source == atts[i].source));
        }
    } else {
        assert(i > 0);
        let rest = atts.skip(1);
        assert forall|x: int, y: int|
            0 <= x < y < rest.len() implies !(#[trigger] rest[x].scene == #[trigger] rest[y].scene
                && rest[x].source == rest[y].source) by {
            assert(rest[x] == atts[x + 1]);
            assert(rest[y] == atts[y + 1]);
        }
        assert(rest[i - 1] == atts[i]);
        lemma_attachment_item_at(rest, i - 1, scene, source);
    }
}

/// How many sources are attached to the scene.
pub open spec fn scene_member_count(atts: Seq<Attachment>, scene: usize) -> int {
    atts.filter(|a: Attachment| a.scene == scene).len() as int
}

impl EngineCore {
    /// The slot table.
    pub closed spec fn objects_view(self) -> Seq<Option<ObjectSlot>> {
        self.objects@
    }

    /// The attachment registry.
    pub closed spec fn atts_view(self) -> Seq<Attachment> {
        self.attachments@
    }

    /// The filter links, source handle to filter handle.
    pub closed spec fn filter_links_view(self) -> Seq<(usize, usize)> {
        self.filter_links@
    }

    /// The 64 output channels; `0` is an empty channel.
    pub closed spec fn channels_view(self) -> Seq<usize> {
        self.channels@
    }

    /// How many native retains have been issued.
    pub closed spec fn retains(self) -> u64 {
        self.retain_calls
    }

    /// How many native releases have been issued.
    pub closed spec fn releases(self) -> u64 {
        self.release_calls
    }

    /// How many native procedure calls have been made.
    pub closed spec fn procs(self) -> u64 {
        self.proc_calls
    }

    /// The active video descriptor.
    pub closed spec fn video_view(self) -> ObsVideoInfo {
        self.video
    }

    /// Well-formedness: the invariant every operation preserves.
    pub open spec fn wf(self) -> bool {
        let o = self.objects_view();
        let atts = self.atts_view();
        &&& self.channels_view().len() == 64
        &&& self.retains() <= o.len()
        &&& self.releases() <= self.retains()
        &&& self.retains() - self.releases() == live_count(o)
        &&& forall|i: int| 0 <= i < atts.len() ==> att_wf(o, #[trigger] atts[i])
        &&& forall|i: int, j: int|
            0 <= i < j < atts.len() ==> !(#[trigger] atts[i].scene == #[trigger] atts[j].scene
                && atts[i].source == atts[j].source)
        &&& forall|i: int, j: int| 0 <= i < j < atts.len() ==> atts[i].item != atts[j].item
        &&& forall|h: usize|
            #[trigger] is_source(o, h) && slot_of(o, h).shares == 0 ==> source_attached(atts, h)
        &&& forall|h: usize|
            is_scene(o, h) || is_output(o, h) || is_filter(o, h) ==> #[trigger] slot_of(o, h).shares
                >= 1
        &&& forall|h: usize|
            #[trigger] is_item(o, h) ==> slot_of(o, h).shares == 0 && exists|i: int|
                0 <= i < atts.len() && atts[i].item == h
    }

    /// A fresh engine with no objects, all channels empty, and the given
    /// video descriptor.
    pub fn new(video: ObsVideoInfo) -> (r: EngineCore)
        ensures
            r.wf(),
            r.objects_view() == Seq::<Option<ObjectSlot>>::empty(),
            r.atts_view() == Seq::<Attachment>::empty(),
            r.filter_links_view() == Seq::<(usize, usize)>::empty(),
            r.channels_view().len() == 64,
            forall|c: int| 0 <= c < 64 ==> r.channels_view()[c] == 0,
            r.retains() == 0,
            r.releases() == 0,
            r.procs() == 0,
            r.video_view() == video,
    {
        let mut channels: Vec<usize> = Vec::new();
        let mut i: usize = 0;
        while i < 64
            invariant
                i <= 64,
                channels@.len() == i,
                forall|c: int| 0 <= c < i ==> channels@[c] == 0,
            decreases 64 - i,
        {
            channels.push(0);
            i = i + 1;
        }
        let r = EngineCore {
            objects: Vec::new(),
            attachments: Vec::new(),
            filter_links: Vec::new(),
            channels,
            retain_calls: 0,
            release_calls: 0,
            proc_calls: 0,
            video,
        };
        proof {
            assert(r.objects@ =~= Seq::<Option<ObjectSlot>>::empty());
            assert(r.attachments@ =~= Seq::<Attachment>::empty());
            assert(r.filter_links@ =~= Seq::<(usize, usize)>::empty());
        }
        r
    }
}

/// The slot table did not change.
pub open spec fn same_objects(pre: EngineCore, post: EngineCore) -> bool {
    post.objects_view() == pre.objects_view()
}

/// Neither the attachment registry nor the filter links changed.
pub open spec fn same_registry(pre: EngineCore, post: EngineCore) -> bool {
    post.atts_view() == pre.atts_view() && post.filter_links_view() == pre.filter_links_view()
}

/// The channel assignments did not change.
pub open spec fn same_channels(pre: EngineCore, post: EngineCore) -> bool {
    post.channels_view() == pre.channels_view()
}

/// The retain and release counters did not change.
pub open spec fn same_counts(pre: EngineCore, post: EngineCore) -> bool {
    post.retains() == pre.retains() && post.releases() == pre.releases()
}

/// The procedure-call counter did not change.
pub open spec fn same_procs(pre: EngineCore, post: EngineCore) -> bool {
    post.procs() == pre.procs()
}

/// The video descriptor did not change.
pub open spec fn same_video(pre: EngineCore, post: EngineCore) -> bool {
    post.video_view() == pre.video_view()
}

/// Removing a filter link takes out exactly the first matching record,
/// when one exists.
pub open spec fn filter_unlink_rel(pre: EngineCore, source: usize, filter: usize, post: EngineCore, r: bool) -> bool {
    if exists|i: int|
        0 <= i < pre.filter_links_view().len() && pre.filter_links_view()[i] == ((source, filter)) {
        &&& r == true
        &&& exists|i: int|
            #![auto]
            {
                &&& 0 <= i < pre.filter_links_view().len()
                &&& pre.filter_links_view()[i] == ((source, filter))
                &&& (forall|k: int|
                    0 <= k < i ==> #[trigger] pre.filter_links_view()[k] != ((source, filter)))
                &&& post.filter_links_view() == pre.filter_links_view().remove(i)
            }
    } else {
        r == false && post.filter_links_view() == pre.filter_links_view()
    }
}

/// Nothing observable changed.
pub open spec fn unchanged(pre: EngineCore, post: EngineCore) -> bool {
    &&& same_objects(pre, post)
    &&& same_registry(pre, post)
    &&& same_channels(pre, post)
    &&& same_counts(pre, post)
    &&& same_procs(pre, post)
    &&& same_video(pre, post)
}

/// Creating an object appends one live slot with one reference and issues
/// one retain; with the handle space exhausted it fails with `NullPointer`
/// and changes nothing.
pub open spec fn create_rel(
    pre: EngineCore,
    body: ObjectBody,
    post: EngineCore,
    r: Result<usize, ObsError>,
) -> bool {
    if pre.objects_view().len() == usize::MAX as int {
        unchanged(pre, post) && r == Err::<usize, ObsError>(ObsError::NullPointer)
    } else {
        &&& r matches Ok(h) && h == pre.objects_view().len() + 1
        &&& post.objects_view() == pre.objects_view().push(Some(ObjectSlot { shares: 1, body }))
        &&& same_registry(pre, post)
        &&& same_channels(pre, post)
        &&& same_procs(pre, post)
        &&& same_video(pre, post)
        &&& post.retains() == pre.retains() + 1
        &&& post.releases() == pre.releases()
    }
}

/// Updating one live slot leaves every other handle's liveness and slot
/// untouched.
pub proof fn lemma_update_slot(o: Seq<Option<ObjectSlot>>, h: usize, s2: ObjectSlot)
    requires
        live(o, h),
    ensures
        forall|h2: usize| #![trigger live(o.update(h - 1, Some(s2)), h2)]
            live(o.update(h - 1, Some(s2)), h2) == live(o, h2),
        forall|h2: usize| #![trigger slot_of(o.update(h - 1, Some(s2)), h2)]
            live(o, h2) && h2 != h ==> slot_of(o.update(h - 1, Some(s2)), h2) == slot_of(o, h2),
        slot_of(o.update(h - 1, Some(s2)), h) == s2,
{
    let t = o.update(h - 1, Some(s2));
    assert forall|h2: usize| live(t, h2) == live(o, h2) by {
        if 1 <= h2 <= o.len() && h2 != h {
            assert(t[h2 - 1] == o[h2 - 1]);
        }
    }
    assert forall|h2: usize| live(o, h2) && h2 != h implies slot_of(t, h2) == slot_of(o, h2) by {
        assert(t[h2 - 1] == o[h2 - 1]);
    }
}

/// Appending a slot leaves every existing handle's liveness and slot
/// untouched.
pub proof fn lemma_push_slot(o: Seq<Option<ObjectSlot>>, e: Option<ObjectSlot>)
    ensures
        forall|h2: usize| #![trigger live(o.push(e), h2)]
            h2 <= o.len() ==> live(o.push(e), h2) == live(o, h2),
        forall|h2: usize| #![trigger slot_of(o.push(e), h2)]
            live(o, h2) ==> slot_of(o.push(e), h2) == slot_of(o, h2),
{
    let t = o.push(e);
    assert forall|h2: usize| h2 <= o.len() implies live(t, h2) == live(o, h2) by {
        if 1 <= h2 {
            assert(t[h2 - 1] == o[h2 - 1]);
        }
    }
    assert forall|h2: usize| live(o, h2) implies slot_of(t, h2) == slot_of(o, h2) by {
        assert(t[h2 - 1] == o[h2 - 1]);
    }
}

/// Replacing a live slot with one of the same kind (and, for items, the
/// same scene and source links) preserves well-formedness, provided the
/// liveness rules hold of the new slot.
pub proof fn lemma_wf_update_same_kind(pre: EngineCore, post: EngineCore, h: usize, s2: ObjectSlot)
    requires
        pre.wf(),
        live(pre.objects_view(), h),
        post.objects_view() == pre.objects_view().update(h - 1, Some(s2)),
        same_registry(pre, post),
        same_channels(pre, post),
        same_counts(pre, post),
        s2.body is ItemBody <==> slot_of(pre.objects_view(), h).body is ItemBody,
        s2.body is SceneBody <==> slot_of(pre.objects_view(), h).body is SceneBody,
        s2.body is SourceBody <==> slot_of(pre.objects_view(), h).body is SourceBody,
        s2.body is OutputBody <==> slot_of(pre.objects_view(), h).body is OutputBody,
        s2.body is FilterBody <==> slot_of(pre.objects_view(), h).body is FilterBody,
        s2.body is ItemBody ==> s2.body->ItemBody_scene == slot_of(
            pre.objects_view(),
            h,
        ).body->ItemBody_scene && s2.body->ItemBody_source == slot_of(
            pre.objects_view(),
            h,
        ).body->ItemBody_source && s2.shares == 0,
        s2.body is SceneBody || s2.body is OutputBody || s2.body is FilterBody ==> s2.shares >= 1,
        s2.body is SourceBody && s2.shares == 0 ==> source_attached(pre.atts_view(), h),
    ensures
        post.wf(),
{
    let o = pre.objects_view();
    let t = post.objects_view();
    let atts = pre.atts_view();
    lemma_update_slot(o, h, s2);
    lemma_live_count_update(o, h - 1, Some(s2));
    assert(live_contrib(o[h - 1]) == live_contrib(Some(s2)));
    assert forall|i: int| 0 <= i < atts.len() implies att_wf(t, #[trigger] atts[i]) by {
        assert(att_wf(o, atts[i]));
        assert(live(t, atts[i].scene) && live(t, atts[i].source) && live(t, atts[i].item));
        assert(slot_of(t, atts[i].scene).body is SceneBody);
        assert(slot_of(t, atts[i].source).body is SourceBody);
        assert(slot_of(t, atts[i].item).body is ItemBody);
        assert(slot_of(t, atts[i].item).body->ItemBody_scene == atts[i].scene);
        assert(slot_of(t, atts[i].item).body->ItemBody_source == atts[i].source);
    }
    assert forall|h2: usize|
        #[trigger] is_source(t, h2) && slot_of(t, h2).shares == 0 implies source_attached(
        post.atts_view(),
        h2,
    ) by {
        if h2 == h {
            assert(source_attached(atts, h2));
        } else {
            assert(is_source(o, h2));
        }
    }
    assert forall|h2: usize|
        is_scene(t, h2) || is_output(t, h2) || is_filter(t, h2) implies #[trigger] slot_of(
        t,
        h2,
    ).shares >= 1 by {
        if h2 != h {
            assert(live(o, h2) && slot_of(t, h2) == slot_of(o, h2));
        }
    }
    assert forall|h2: usize| #[trigger] is_item(t, h2) implies slot_of(t, h2).shares == 0
        && exists|i: int| 0 <= i < post.atts_view().len() && post.atts_view()[i].item == h2 by {
        if h2 != h {
            assert(is_item(o, h2));
        } else {
            assert(is_item(o, h));
        }
    }
}

/// How many attachment rows belong to the scene.
pub open spec fn count_atts(atts: Seq<Attachment>, scene: usize) -> int
    decreases atts.len(),
{
    if atts.len() == 0 {
        0
    } else {
        count_atts(atts.drop_last(), scene) + if atts.last().scene == scene {
            1int
        } else {
            0int
        }
    }
}

/// Creating one source already attached to a scene: a source slot and an
/// item slot are appended, one attachment row records the membership, and
/// one retain is issued for the source.
pub open spec fn attach_rel(
    pre: EngineCore,
    scene: usize,
    id: String,
    name: String,
    settings: ObsData,
    post: EngineCore,
    r: Result<(usize, usize), ObsError>,
) -> bool {
    if pre.objects_view().len() + 2 > usize::MAX as int {
        unchanged(pre, post) && r == Err::<(usize, usize), ObsError>(ObsError::NullPointer)
    } else {
        &&& r matches Ok(p) && p.0 == pre.objects_view().len() + 1 && p.1
            == pre.objects_view().len() + 2
        &&& {
        let sh = (pre.objects_view().len() + 1) as usize;
        let ih = (pre.objects_view().len() + 2) as usize;
        &&& post.objects_view() == pre.objects_view().push(
            Some(ObjectSlot { shares: 1, body: ObjectBody::SourceBody { id, name, settings } }),
        ).push(
            Some(ObjectSlot {
                shares: 0,
                body: ObjectBody::ItemBody {
                    scene,
                    source: sh,
                    locked: false,
                    transform: initial_transform(),
                },
            }),
        )
        &&& post.atts_view() == pre.atts_view().push(Attachment { scene, source: sh, item: ih })
        &&& post.filter_links_view() == pre.filter_links_view()
        &&& same_channels(pre, post)
        &&& same_procs(pre, post)
        &&& same_video(pre, post)
        &&& post.retains() == pre.retains() + 1
        &&& post.releases() == pre.releases()
        }
    }
}

/// Detaching a source from a scene: the attachment row and its scene item
/// go away; the source itself dies too when no wrapper reference and no
/// other scene keeps it, and that death is one release.
pub open spec fn detach_rel(
    pre: EngineCore,
    scene: usize,
    source: usize,
    post: EngineCore,
    r: Result<(), ObsError>,
) -> bool {
    if !has_attachment(pre.atts_view(), scene, source) {
        unchanged(pre, post) && r == Err::<(), ObsError>(ObsError::SourceNotFound)
    } else {
        &&& r == Ok::<(), ObsError>(())
        &&& exists|i: int|
            #![auto]
            {
                &&& 0 <= i < pre.atts_view().len()
                &&& pre.atts_view()[i].scene == scene
                &&& pre.atts_view()[i].source == source
                &&& post.atts_view() == pre.atts_view().remove(i)
                &&& {
                    let item = pre.atts_view()[i].item;
                    let dies = slot_of(pre.objects_view(), source).shares == 0
                        && !source_attached(pre.atts_view().remove(i), source);
                    &&& post.objects_view() == if dies {
                        pre.objects_view().update(item - 1, None).update(source - 1, None)
                    } else {
                        pre.objects_view().update(item - 1, None)
                    }
                    &&& post.releases() == pre.releases() + if dies {
                        1int
                    } else {
                        0int
                    }
                }
            }
        &&& post.retains() == pre.retains()
        &&& post.filter_links_view() == pre.filter_links_view()
        &&& same_channels(pre, post)
        &&& same_procs(pre, post)
        &&& same_video(pre, post)
    }
}

/// The attachment registry with every row of the given scene taken out,
/// order preserved.
pub open spec fn atts_without_scene(atts: Seq<Attachment>, scene: usize) -> Seq<Attachment>
    decreases atts.len(),
{
    if atts.len() == 0 {
        atts
    } else {
        let rest = atts_without_scene(atts.drop_last(), scene);
        if atts.last().scene == scene {
            rest
        } else {
            rest.push(atts.last())
        }
    }
}

pub proof fn lemma_count_atts_nonneg(atts: Seq<Attachment>, scene: usize)
    ensures
        count_atts(atts, scene) >= 0,
    decreases atts.len(),
{
    if atts.len() > 0 {
        lemma_count_atts_nonneg(atts.drop_last(), scene);
    }
}

pub proof fn lemma_count_atts_remove(atts: Seq<Attachment>, i: int, scene: usize)
    requires
        0 <= i < atts.len(),
    ensures
        count_atts(atts.remove(i), scene) == count_atts(atts, scene) - (if atts[i].scene == scene {
            1int
        } else {
            0int
        }),
    decreases atts.len(),
{
    let t = atts.remove(i);
    if i == atts.len() - 1 {
        assert(t =~= atts.drop_last());
    } else {
        assert(t.drop_last() =~= atts.drop_last().remove(i));
        assert(t.last() == atts.last());
        lemma_count_atts_remove(atts.drop_last(), i, scene);
        assert(atts.drop_last()[i] == atts[i]);
    }
}

pub proof fn lemma_without_scene_remove(atts: Seq<Attachment>, i: int, scene: usize)
    requires
        0 <= i < atts.len(),
        atts[i].scene == scene,
    ensures
        atts_without_scene(atts.remove(i), scene) == atts_without_scene(atts, scene),
    decreases atts.len(),
{
    let t = atts.remove(i);
    if i == atts.len() - 1 {
        assert(t =~= atts.drop_last());
    } else {
        assert(t.drop_last() =~= atts.drop_last().remove(i));
        assert(t.last() == atts.last());
        lemma_without_scene_remove(atts.drop_last(), i, scene);
        assert(atts.drop_last()[i] == atts[i]);
    }
}

pub proof fn lemma_without_scene_id(atts: Seq<Attachment>, scene: usize)
    requires
        forall|k: int| 0 <= k < atts.len() ==> (#[trigger] atts[k]).scene != scene,
    ensures
        atts_without_scene(atts, scene) == atts,
    decreases atts.len(),
{
    if atts.len() > 0 {
        lemma_without_scene_id(atts.drop_last(), scene);
        assert(atts_without_scene(atts, scene) =~= atts.drop_last().push(atts.last()));
        assert(atts.drop_last().push(atts.last()) =~= atts);
    } else {
        assert(atts_without_scene(atts, scene) =~= atts);
    }
}

/// Releasing the last reference of a scene tears it down: every membership
/// row of the scene goes away with its scene item, sources kept by nothing
/// else are released, and finally the scene itself is released.
pub open spec fn scene_teardown_rel(pre: EngineCore, h: usize, post: EngineCore) -> bool {
    &&& !live(post.objects_view(), h)
    &&& post.objects_view().len() == pre.objects_view().len()
    &&& post.atts_view() == atts_without_scene(pre.atts_view(), h)
    &&& post.retains() == pre.retains()
    &&& pre.releases() < post.releases() <= pre.releases() + 1 + count_atts(pre.atts_view(), h)
    &&& forall|i: int|
        0 <= i < pre.objects_view().len() ==> #[trigger] post.objects_view()[i]
            == pre.objects_view()[i] || post.objects_view()[i] is None
    &&& forall|h2: usize|
        #![trigger slot_of(post.objects_view(), h2)]
        #![trigger live(post.objects_view(), h2)]
        h2 != h && live(pre.objects_view(), h2) && (is_scene(pre.objects_view(), h2) || is_output(
            pre.objects_view(),
            h2,
        ) || is_filter(pre.objects_view(), h2) || (is_source(pre.objects_view(), h2) && slot_of(
            pre.objects_view(),
            h2,
        ).shares >= 1)) ==> live(post.objects_view(), h2) && slot_of(post.objects_view(), h2)
            == slot_of(pre.objects_view(), h2)
    &&& post.filter_links_view() == pre.filter_links_view()
    &&& same_channels(pre, post)
    &&& same_procs(pre, post)
    &&& same_video(pre, post)
}

/// Releasing one wrapper reference: with more than one holder the count
/// drops; with one holder the object dies, except that a source still
/// attached to a scene stays for the scene's sake, and a dying scene is
/// torn down first.
pub open spec fn release_rel(pre: EngineCore, h: usize, post: EngineCore) -> bool {
    let s = slot_of(pre.objects_view(), h);
    if s.shares > 1 {
        &&& post.objects_view() == pre.objects_view().update(
            h - 1,
            Some(ObjectSlot { shares: (s.shares - 1) as u64, body: s.body }),
        )
        &&& same_registry(pre, post)
        &&& same_channels(pre, post)
        &&& same_counts(pre, post)
        &&& same_procs(pre, post)
        &&& same_video(pre, post)
    } else if s.body is SourceBody && source_attached(pre.atts_view(), h) {
        &&& post.objects_view() == pre.objects_view().update(
            h - 1,
            Some(ObjectSlot { shares: 0, body: s.body }),
        )
        &&& same_registry(pre, post)
        &&& same_channels(pre, post)
        &&& same_counts(pre, post)
        &&& same_procs(pre, post)
        &&& same_video(pre, post)
    } else if s.body is SceneBody {
        scene_teardown_rel(pre, h, post)
    } else {
        &&& post.objects_view() == pre.objects_view().update(h - 1, None)
        &&& post.releases() == pre.releases() + 1
        &&& post.retains() == pre.retains()
        &&& same_registry(pre, post)
        &&& same_channels(pre, post)
        &&& same_procs(pre, post)
        &&& same_video(pre, post)
    }
}

/// Killing a slot that no attachment row references preserves
/// well-formedness together with one release.
pub proof fn lemma_wf_kill_unreferenced(pre: EngineCore, post: EngineCore, h: usize)
    requires
        pre.wf(),
        live(pre.objects_view(), h),
        counted(slot_of(pre.objects_view(), h).body),
        !(slot_of(pre.objects_view(), h).body is SceneBody),
        slot_of(pre.objects_view(), h).body is SourceBody ==> !source_attached(
            pre.atts_view(),
            h,
        ),
        post.objects_view() == pre.objects_view().update(h - 1, None),
        post.releases() == pre.releases() + 1,
        post.retains() == pre.retains(),
        same_registry(pre, post),
        same_channels(pre, post),
    ensures
        post.wf(),
{
    let o = pre.objects_view();
    let t = post.objects_view();
    let atts = pre.atts_view();
    lemma_kill_slot(o, h);
    lemma_live_count_update(o, h - 1, None);
    lemma_live_count_at(o, h);
    assert(o[h - 1] is Some);
    assert(live_contrib(o[h - 1]) == 1);
    assert forall|k: int| 0 <= k < atts.len() implies att_wf(t, #[trigger] atts[k]) by {
        let b = atts[k];
        assert(att_wf(o, b));
        assert(b.scene != h && b.item != h);
        assert(b.source != h) by {
            if b.source == h {
                assert(source_attached(atts, h));
            }
        }
    }
    assert forall|h2: usize|
        #[trigger] is_source(t, h2) && slot_of(t, h2).shares == 0 implies source_attached(
        post.atts_view(),
        h2,
    ) by {
        assert(h2 != h);
        assert(is_source(o, h2) && slot_of(t, h2) == slot_of(o, h2));
    }
    assert forall|h2: usize|
        is_scene(t, h2) || is_output(t, h2) || is_filter(t, h2) implies #[trigger] slot_of(
        t,
        h2,
    ).shares >= 1 by {
        assert(h2 != h);
        assert(slot_of(t, h2) == slot_of(o, h2) && live(o, h2));
    }
    assert forall|h2: usize| #[trigger] is_item(t, h2) implies slot_of(t, h2).shares == 0
        && exists|k: int| 0 <= k < post.atts_view().len() && post.atts_view()[k].item == h2 by {
        assert(h2 != h);
        assert(slot_of(t, h2) == slot_of(o, h2) && live(o, h2));
        assert(is_item(o, h2));
        let w = choose|k: int| 0 <= k < atts.len() && atts[k].item == h2;
        assert(0 <= w < post.atts_view().len() && post.atts_view()[w].item == h2);
    }
}

/// A live counted slot keeps the live count at one or more.
pub proof fn lemma_live_count_at(o: Seq<Option<ObjectSlot>>, h: usize)
    requires
        live(o, h),
        counted(slot_of(o, h).body),
    ensures
        live_count(o) >= 1,
    decreases o.len(),
{
    if h == o.len() {
        lemma_live_count_nonneg(o.drop_last());
    } else {
        lemma_live_count_at(o.drop_last(), h);
        assert(live_contrib(o.last()) >= 0);
    }
}

/// Killing one live slot leaves every other handle's liveness and slot
/// untouched.
pub proof fn lemma_kill_slot(o: Seq<Option<ObjectSlot>>, h: usize)
    requires
        live(o, h),
    ensures
        forall|h2: usize| #![trigger live(o.update(h - 1, None), h2)]
            h2 != h ==> live(o.update(h - 1, None), h2) == live(o, h2),
        forall|h2: usize| #![trigger slot_of(o.update(h - 1, None), h2)]
            live(o, h2) && h2 != h ==> slot_of(o.update(h - 1, None), h2) == slot_of(o, h2),
        !live(o.update(h - 1, None), h),
{
    let t = o.update(h - 1, None);
    assert forall|h2: usize| h2 != h implies live(t, h2) == live(o, h2) by {
        if 1 <= h2 <= o.len() {
            assert(t[h2 - 1] == o[h2 - 1]);
        }
    }
    assert forall|h2: usize| live(o, h2) && h2 != h implies slot_of(t, h2) == slot_of(o, h2) by {
        assert(t[h2 - 1] == o[h2 - 1]);
    }
}

/// A change that touches neither the slot table, the registry, the
/// counters, nor the channel count preserves well-formedness.
pub proof fn lemma_wf_frame(pre: EngineCore, post: EngineCore)
    requires
        pre.wf(),
        same_objects(pre, post),
        post.atts_view() == pre.atts_view(),
        post.channels_view().len() == 64,
        post.retains() == pre.retains(),
        post.releases() == pre.releases(),
    ensures
        post.wf(),
{
    let o = pre.objects_view();
    let atts = pre.atts_view();
    assert forall|i: int| 0 <= i < post.atts_view().len() implies att_wf(
        post.objects_view(),
        #[trigger] post.atts_view()[i],
    ) by {
        assert(att_wf(o, atts[i]));
    }
    assert forall|h: usize|
        #[trigger] is_source(post.objects_view(), h) && slot_of(post.objects_view(), h).shares
            == 0 implies source_attached(post.atts_view(), h) by {
        assert(is_source(o, h));
    }
    assert forall|h: usize|
        is_scene(post.objects_view(), h) || is_output(post.objects_view(), h) || is_filter(
            post.objects_view(),
            h,
        ) implies #[trigger] slot_of(post.objects_view(), h).shares >= 1 by {
        assert(is_scene(o, h) || is_output(o, h) || is_filter(o, h));
    }
    assert forall|h: usize| #[trigger] is_item(post.objects_view(), h) implies slot_of(
        post.objects_view(),
        h,
    ).shares == 0 && exists|i: int|
        0 <= i < post.atts_view().len() && post.atts_view()[i].item == h by {
        assert(is_item(o, h));
    }
}

impl EngineCore {
    /// Creates one native object with a fresh handle; the sole failure is
    /// handle-space exhaustion, reported as `NullPointer`.
    pub(crate) fn create_object(&mut self, body: ObjectBody) -> (r: Result<usize, ObsError>)
        requires
            old(self).wf(),
            counted(body),
        ensures
            final(self).wf(),
            create_rel(*old(self), body, *final(self), r),
            r matches Ok(h) ==> live(final(self).objects_view(), h) && slot_of(
                final(self).objects_view(),
                h,
            ) == (ObjectSlot { shares: 1u64, body }),
    {
        if self.objects.len() == usize::MAX {
            return Err(ObsError::NullPointer);
        }
        let ghost pre = *self;
        let ghost slot = ObjectSlot { shares: 1u64, body };
        self.objects.push(Some(ObjectSlot { shares: 1, body }));
        proof {
            assert(self.retain_calls < u64::MAX);
        }
        self.retain_calls = self.retain_calls + 1;
        let h = self.objects.len();
        proof {
            let o = pre.objects_view();
            let t = self.objects_view();
            assert(t == o.push(Some(slot)));
            lemma_push_slot(o, Some(slot));
            lemma_live_count_push(o, Some(slot));
            assert(live(t, h) && slot_of(t, h) == slot);
            assert forall|i: int| 0 <= i < self.atts_view().len() implies att_wf(
                t,
                #[trigger] self.atts_view()[i],
            ) by {
                assert(att_wf(o, pre.atts_view()[i]));
            }
            assert forall|h2: usize|
                #[trigger] is_source(t, h2) && slot_of(t, h2).shares == 0 implies source_attached(
                self.atts_view(),
                h2,
            ) by {
                if h2 <= o.len() {
                    assert(is_source(o, h2));
                } else {
                    assert(slot_of(t, h2).shares == 1);
                }
            }
            assert forall|h2: usize|
                is_scene(t, h2) || is_output(t, h2) || is_filter(t, h2) implies #[trigger] slot_of(
                t,
                h2,
            ).shares >= 1 by {
                if h2 <= o.len() {
                    assert(live(o, h2) && slot_of(t, h2) == slot_of(o, h2));
                }
            }
            assert forall|h2: usize| #[trigger] is_item(t, h2) implies slot_of(t, h2).shares == 0
                && exists|i: int|
                0 <= i < self.atts_view().len() && self.atts_view()[i].item == h2 by {
                if h2 <= o.len() {
                    assert(slot_of(t, h2) == slot_of(o, h2));
                    assert(is_item(o, h2));
                    let i = choose|i: int|
                        0 <= i < pre.atts_view().len() && pre.atts_view()[i].item == h2;
                    assert(0 <= i < self.atts_view().len() && self.atts_view()[i].item == h2);
                } else {
                    assert(counted(slot_of(t, h2).body));
                }
            }
        }
        Ok(h)
    }

    /// Takes one more wrapper reference on a counted object, mirroring a
    /// clone of its reference set; no native retain is issued.
    pub(crate) fn add_ref(&mut self, h: usize)
        requires
            old(self).wf(),
            live(old(self).objects_view(), h),
            counted(slot_of(old(self).objects_view(), h).body),
            slot_of(old(self).objects_view(), h).shares < u64::MAX,
        ensures
            final(self).wf(),
            final(self).objects_view() == old(self).objects_view().update(
                h - 1,
                Some(ObjectSlot {
                    shares: (slot_of(old(self).objects_view(), h).shares + 1) as u64,
                    body: slot_of(old(self).objects_view(), h).body,
                }),
            ),
            same_registry(*old(self), *final(self)),
            same_channels(*old(self), *final(self)),
            same_counts(*old(self), *final(self)),
            same_procs(*old(self), *final(self)),
            same_video(*old(self), *final(self)),
    {
        let ghost pre = *self;
        let idx = h - 1;
        match &mut self.objects[idx] {
            Some(slot) => {
                slot.shares = slot.shares + 1;
            },
            None => {},
        }
        proof {
            let s2 = ObjectSlot {
                shares: (slot_of(pre.objects_view(), h).shares + 1) as u64,
                body: slot_of(pre.objects_view(), h).body,
            };
            assert(self.objects_view() =~= pre.objects_view().update(h - 1, Some(s2)));
            lemma_wf_update_same_kind(pre, *self, h, s2);
        }
    }

    /// Locks or unlocks a scene item.
    pub(crate) fn item_set_locked(&mut self, h: usize, locked: bool)
        requires
            old(self).wf(),
            is_item(old(self).objects_view(), h),
        ensures
            final(self).wf(),
            final(self).objects_view() == old(self).objects_view().update(
                h - 1,
                Some(ObjectSlot {
                    shares: 0u64,
                    body: ObjectBody::ItemBody {
                        scene: slot_of(old(self).objects_view(), h).body->ItemBody_scene,
                        source: slot_of(old(self).objects_view(), h).body->ItemBody_source,
                        locked,
                        transform: slot_of(old(self).objects_view(), h).body->ItemBody_transform,
                    },
                }),
            ),
            same_registry(*old(self), *final(self)),
            same_channels(*old(self), *final(self)),
            same_counts(*old(self), *final(self)),
            same_procs(*old(self), *final(self)),
            same_video(*old(self), *final(self)),
    {
        let ghost pre = *self;
        let idx = h - 1;
        match &mut self.objects[idx] {
            Some(slot) => match &mut slot.body {
                ObjectBody::ItemBody { locked: l, .. } => {
                    *l = locked;
                },
                _ => {},
            },
            None => {},
        }
        proof {
            let s = slot_of(pre.objects_view(), h);
            let s2 = ObjectSlot {
                shares: 0u64,
                body: ObjectBody::ItemBody {
                    scene: s.body->ItemBody_scene,
                    source: s.body->ItemBody_source,
                    locked,
                    transform: s.body->ItemBody_transform,
                },
            };
            assert(self.objects_view() =~= pre.objects_view().update(h - 1, Some(s2)));
            lemma_wf_update_same_kind(pre, *self, h, s2);
        }
    }

    /// Replaces the full placement of a scene item.
    pub(crate) fn item_set_info(&mut self, h: usize, info: ObsTransformInfo)
        requires
            old(self).wf(),
            is_item(old(self).objects_view(), h),
        ensures
            final(self).wf(),
            final(self).objects_view() == old(self).objects_view().update(
                h - 1,
                Some(ObjectSlot {
                    shares: 0u64,
                    body: ObjectBody::ItemBody {
                        scene: slot_of(old(self).objects_view(), h).body->ItemBody_scene,
                        source: slot_of(old(self).objects_view(), h).body->ItemBody_source,
                        locked: slot_of(old(self).objects_view(), h).body->ItemBody_locked,
                        transform: info,
                    },
                }),
            ),
            same_registry(*old(self), *final(self)),
            same_channels(*old(self), *final(self)),
            same_counts(*old(self), *final(self)),
            same_procs(*old(self), *final(self)),
            same_video(*old(self), *final(self)),
    {
        let ghost pre = *self;
        let idx = h - 1;
        match &mut self.objects[idx] {
            Some(slot) => match &mut slot.body {
                ObjectBody::ItemBody { transform: t, .. } => {
                    *t = info;
                },
                _ => {},
            },
            None => {},
        }
        proof {
            let s = slot_of(pre.objects_view(), h);
            let s2 = ObjectSlot {
                shares: 0u64,
                body: ObjectBody::ItemBody {
                    scene: s.body->ItemBody_scene,
                    source: s.body->ItemBody_source,
                    locked: s.body->ItemBody_locked,
                    transform: info,
                },
            };
            assert(self.objects_view() =~= pre.objects_view().update(h - 1, Some(s2)));
            lemma_wf_update_same_kind(pre, *self, h, s2);
        }
    }

    /// Reads a scene item's locked flag and placement.
    pub(crate) fn item_state(&self, h: usize) -> (r: (bool, ObsTransformInfo))
        requires
            self.wf(),
            is_item(self.objects_view(), h),
        ensures
            r.0 == slot_of(self.objects_view(), h).body->ItemBody_locked,
            r.1 == slot_of(self.objects_view(), h).body->ItemBody_transform,
    {
        let idx = h - 1;
        match &self.objects[idx] {
            Some(slot) => match &slot.body {
                ObjectBody::ItemBody { locked, transform, .. } => (*locked, *transform),
                _ => (false, crate::transform::ObsTransformInfoBuilder::new().build(0, 0)),
            },
            None => (false, crate::transform::ObsTransformInfoBuilder::new().build(0, 0)),
        }
    }

    /// Sets an output's active and paused flags.
    pub(crate) fn output_set_flags(&mut self, h: usize, active: bool, paused: bool)
        requires
            old(self).wf(),
            is_output(old(self).objects_view(), h),
        ensures
            final(self).wf(),
            final(self).objects_view() == old(self).objects_view().update(
                h - 1,
                Some(ObjectSlot {
                    shares: slot_of(old(self).objects_view(), h).shares,
                    body: ObjectBody::OutputBody {
                        id: slot_of(old(self).objects_view(), h).body->OutputBody_id,
                        name: slot_of(old(self).objects_view(), h).body->OutputBody_name,
                        settings: slot_of(old(self).objects_view(), h).body->OutputBody_settings,
                        active,
                        paused,
                        replay_path: slot_of(old(self).objects_view(), h).body->OutputBody_replay_path,
                    },
                }),
            ),
            same_registry(*old(self), *final(self)),
            same_channels(*old(self), *final(self)),
            same_counts(*old(self), *final(self)),
            same_procs(*old(self), *final(self)),
            same_video(*old(self), *final(self)),
    {
        let ghost pre = *self;
        let idx = h - 1;
        match &mut self.objects[idx] {
            Some(slot) => match &mut slot.body {
                ObjectBody::OutputBody { active: a, paused: p, .. } => {
                    *a = active;
                    *p = paused;
                },
                _ => {},
            },
            None => {},
        }
        proof {
            let s = slot_of(pre.objects_view(), h);
            let s2 = ObjectSlot {
                shares: s.shares,
                body: ObjectBody::OutputBody {
                    id: s.body->OutputBody_id,
                    name: s.body->OutputBody_name,
                    settings: s.body->OutputBody_settings,
                    active,
                    paused,
                    replay_path: s.body->OutputBody_replay_path,
                },
            };
            assert(self.objects_view() =~= pre.objects_view().update(h - 1, Some(s2)));
            lemma_wf_update_same_kind(pre, *self, h, s2);
        }
    }

    /// Records the path of the most recently saved replay file; stands in
    /// for the native recorder finishing a save.
    pub(crate) fn output_set_replay_path(&mut self, h: usize, path: String)
        requires
            old(self).wf(),
            is_output(old(self).objects_view(), h),
        ensures
            final(self).wf(),
            final(self).objects_view() == old(self).objects_view().update(
                h - 1,
                Some(ObjectSlot {
                    shares: slot_of(old(self).objects_view(), h).shares,
                    body: ObjectBody::OutputBody {
                        id: slot_of(old(self).objects_view(), h).body->OutputBody_id,
                        name: slot_of(old(self).objects_view(), h).body->OutputBody_name,
                        settings: slot_of(old(self).objects_view(), h).body->OutputBody_settings,
                        active: slot_of(old(self).objects_view(), h).body->OutputBody_active,
                        paused: slot_of(old(self).objects_view(), h).body->OutputBody_paused,
                        replay_path: Some(path),
                    },
                }),
            ),
            same_registry(*old(self), *final(self)),
            same_channels(*old(self), *final(self)),
            same_counts(*old(self), *final(self)),
            same_procs(*old(self), *final(self)),
            same_video(*old(self), *final(self)),
    {
        let ghost pre = *self;
        let idx = h - 1;
        match &mut self.objects[idx] {
            Some(slot) => match &mut slot.body {
                ObjectBody::OutputBody { replay_path: rp, .. } => {
                    *rp = Some(path);
                },
                _ => {},
            },
            None => {},
        }
        proof {
            let s = slot_of(pre.objects_view(), h);
            let s2 = ObjectSlot {
                shares: s.shares,
                body: ObjectBody::OutputBody {
                    id: s.body->OutputBody_id,
                    name: s.body->OutputBody_name,
                    settings: s.body->OutputBody_settings,
                    active: s.body->OutputBody_active,
                    paused: s.body->OutputBody_paused,
                    replay_path: Some(path),
                },
            };
            assert(self.objects_view() =~= pre.objects_view().update(h - 1, Some(s2)));
            lemma_wf_update_same_kind(pre, *self, h, s2);
        }
    }

    /// Reads an output's active and paused flags.
    pub(crate) fn output_flags(&self, h: usize) -> (r: (bool, bool))
        requires
            self.wf(),
            is_output(self.objects_view(), h),
        ensures
            r.0 == slot_of(self.objects_view(), h).body->OutputBody_active,
            r.1 == slot_of(self.objects_view(), h).body->OutputBody_paused,
    {
        let idx = h - 1;
        match &self.objects[idx] {
            Some(slot) => match &slot.body {
                ObjectBody::OutputBody { active, paused, .. } => (*active, *paused),
                _ => (false, false),
            },
            None => (false, false),
        }
    }

    /// Whether the handle names a live scene.
    pub(crate) fn scene_exists(&self, h: usize) -> (r: bool)
        ensures
            r == is_scene(self.objects_view(), h),
    {
        if h == 0 || h > self.objects.len() {
            return false;
        }
        match &self.objects[h - 1] {
            Some(slot) => match &slot.body {
                ObjectBody::SceneBody { .. } => true,
                _ => false,
            },
            None => false,
        }
    }

    /// Whether the handle names a live scene item.
    pub(crate) fn item_exists(&self, h: usize) -> (r: bool)
        ensures
            r == is_item(self.objects_view(), h),
    {
        if h == 0 || h > self.objects.len() {
            return false;
        }
        match &self.objects[h - 1] {
            Some(slot) => match &slot.body {
                ObjectBody::ItemBody { .. } => true,
                _ => false,
            },
            None => false,
        }
    }

    /// Whether a handle can take one more wrapper reference: live, counted
    /// and below the reference-count ceiling.
    pub(crate) fn can_add_ref(&self, h: usize) -> (r: bool)
        ensures
            r == (live(self.objects_view(), h) && counted(slot_of(self.objects_view(), h).body)
                && slot_of(self.objects_view(), h).shares < u64::MAX),
    {
        if h == 0 || h > self.objects.len() {
            return false;
        }
        match &self.objects[h - 1] {
            Some(slot) => match &slot.body {
                ObjectBody::ItemBody { .. } => false,
                _ => slot.shares < u64::MAX,
            },
            None => false,
        }
    }

    /// Whether the handle names a live source.
    pub(crate) fn source_exists(&self, h: usize) -> (r: bool)
        ensures
            r == is_source(self.objects_view(), h),
    {
        if h == 0 || h > self.objects.len() {
            return false;
        }
        match &self.objects[h - 1] {
            Some(slot) => match &slot.body {
                ObjectBody::SourceBody { .. } => true,
                _ => false,
            },
            None => false,
        }
    }

    /// How many update signals a source's settings have seen.
    pub(crate) fn source_update_signals(&self, h: usize) -> (r: u64)
        requires
            self.wf(),
            is_source(self.objects_view(), h),
        ensures
            r == slot_of(self.objects_view(), h).body->SourceBody_settings.update_signals(),
    {
        let idx = h - 1;
        match &self.objects[idx] {
            Some(slot) => match &slot.body {
                ObjectBody::SourceBody { settings, .. } => settings.update_signal_count(),
                _ => 0,
            },
            None => 0,
        }
    }

    /// Whether the handle names a live output.
    pub(crate) fn output_exists(&self, h: usize) -> (r: bool)
        ensures
            r == is_output(self.objects_view(), h),
    {
        if h == 0 || h > self.objects.len() {
            return false;
        }
        match &self.objects[h - 1] {
            Some(slot) => match &slot.body {
                ObjectBody::OutputBody { .. } => true,
                _ => false,
            },
            None => false,
        }
    }

    /// Whether an output's type id is the given one.
    pub(crate) fn output_id_is(&self, h: usize, id: &str) -> (r: bool)
        requires
            self.wf(),
            is_output(self.objects_view(), h),
        ensures
            r == (slot_of(self.objects_view(), h).body->OutputBody_id@ == id@),
    {
        let idx = h - 1;
        match &self.objects[idx] {
            Some(slot) => match &slot.body {
                ObjectBody::OutputBody { id: oid, .. } => str_eq(oid.as_str(), id),
                _ => false,
            },
            None => false,
        }
    }

    /// Issues the native `save` procedure call on an output; reports
    /// whether the output was active to take the save.
    pub(crate) fn proc_save(&mut self, h: usize) -> (r: bool)
        requires
            old(self).wf(),
            is_output(old(self).objects_view(), h),
            old(self).procs() < u64::MAX,
        ensures
            final(self).wf(),
            same_objects(*old(self), *final(self)),
            same_registry(*old(self), *final(self)),
            same_channels(*old(self), *final(self)),
            same_counts(*old(self), *final(self)),
            same_video(*old(self), *final(self)),
            final(self).procs() == old(self).procs() + 1,
            r == slot_of(old(self).objects_view(), h).body->OutputBody_active,
    {
        let (active, _) = self.output_flags(h);
        let ghost pre = *self;
        self.proc_calls = self.proc_calls + 1;
        proof {
            lemma_wf_frame(pre, *self);
        }
        active
    }

    /// Issues the native `get_last_replay` procedure call: the path of the
    /// most recently saved replay file, if any.
    pub(crate) fn proc_last_replay(&mut self, h: usize) -> (r: Option<String>)
        requires
            old(self).wf(),
            is_output(old(self).objects_view(), h),
            old(self).procs() < u64::MAX,
        ensures
            final(self).wf(),
            same_objects(*old(self), *final(self)),
            same_registry(*old(self), *final(self)),
            same_channels(*old(self), *final(self)),
            same_counts(*old(self), *final(self)),
            same_video(*old(self), *final(self)),
            final(self).procs() == old(self).procs() + 1,
            r == slot_of(old(self).objects_view(), h).body->OutputBody_replay_path,
    {
        let ghost pre = *self;
        self.proc_calls = self.proc_calls + 1;
        proof {
            lemma_wf_frame(pre, *self);
        }
        let idx = h - 1;
        match &self.objects[idx] {
            Some(slot) => match &slot.body {
                ObjectBody::OutputBody { replay_path, .. } => match replay_path {
                    Some(p) => Some(p.clone()),
                    None => None,
                },
                _ => None,
            },
            None => None,
        }
    }

    /// Assigns a scene handle (or `0` to clear) to one of the 64 output
    /// channels.
    pub(crate) fn set_channel(&mut self, channel: u32, scene: usize)
        requires
            old(self).wf(),
            channel < 64,
        ensures
            final(self).wf(),
            final(self).channels_view() == old(self).channels_view().update(channel as int, scene),
            same_objects(*old(self), *final(self)),
            same_registry(*old(self), *final(self)),
            same_counts(*old(self), *final(self)),
            same_procs(*old(self), *final(self)),
            same_video(*old(self), *final(self)),
    {
        let ghost pre = *self;
        let idx = channel as usize;
        self.channels[idx] = scene;
        proof {
            lemma_wf_frame(pre, *self);
        }
    }

    /// Reads a channel's assignment; `0` is an empty channel.
    pub(crate) fn channel_scene(&self, channel: u32) -> (r: usize)
        requires
            self.wf(),
            channel < 64,
        ensures
            r == self.channels_view()[channel as int],
    {
        self.channels[channel as usize]
    }

    /// The active video descriptor.
    pub(crate) fn get_video(&self) -> (r: ObsVideoInfo)
        ensures
            r == self.video_view(),
    {
        self.video
    }

    /// Replaces the video descriptor; the graphics-backend rule is
    /// enforced by the caller.
    pub(crate) fn set_video(&mut self, v: ObsVideoInfo)
        requires
            old(self).wf(),
        ensures
            final(self).wf(),
            final(self).video_view() == v,
            same_objects(*old(self), *final(self)),
            same_registry(*old(self), *final(self)),
            same_channels(*old(self), *final(self)),
            same_counts(*old(self), *final(self)),
            same_procs(*old(self), *final(self)),
    {
        let ghost pre = *self;
        self.video = v;
        proof {
            lemma_wf_frame(pre, *self);
        }
    }

    /// Records a filter as attached to a source.
    pub(crate) fn filter_link_add(&mut self, source: usize, filter: usize)
        requires
            old(self).wf(),
        ensures
            final(self).wf(),
            final(self).filter_links_view() == old(self).filter_links_view().push((source, filter)),
            same_objects(*old(self), *final(self)),
            final(self).atts_view() == old(self).atts_view(),
            same_channels(*old(self), *final(self)),
            same_counts(*old(self), *final(self)),
            same_procs(*old(self), *final(self)),
            same_video(*old(self), *final(self)),
    {
        let ghost pre = *self;
        self.filter_links.push((source, filter));
        proof {
            lemma_wf_frame(pre, *self);
        }
    }

    /// Removes the first record of a filter on a source, if one exists.
    pub(crate) fn filter_link_remove(&mut self, source: usize, filter: usize) -> (r: bool)
        requires
            old(self).wf(),
        ensures
            final(self).wf(),
            filter_unlink_rel(*old(self), source, filter, *final(self), r),
            same_objects(*old(self), *final(self)),
            final(self).atts_view() == old(self).atts_view(),
            same_channels(*old(self), *final(self)),
            same_counts(*old(self), *final(self)),
            same_procs(*old(self), *final(self)),
            same_video(*old(self), *final(self)),
    {
        let ghost pre = *self;
        let mut j: usize = 0;
        while j < self.filter_links.len()
            invariant
                *self == pre,
                pre == *old(self),
                pre.wf(),
                j <= self.filter_links@.len(),
                forall|k: int|
                    0 <= k < j ==> !(#[trigger] self.filter_links@[k] == ((source, filter))),
            decreases self.filter_links@.len() - j,
        {
            let (ls, lf) = self.filter_links[j];
            if ls == source && lf == filter {
                proof {
                    assert(pre.filter_links_view()[j as int] == ((source, filter)));
                }
                self.filter_links.remove(j);
                proof {
                    lemma_wf_frame(pre, *self);
                    assert(self.filter_links_view() == pre.filter_links_view().remove(j as int));
                    assert(filter_unlink_rel(pre, source, filter, *self, true)) by {
                        assert(0 <= j < pre.filter_links_view().len()
                            && pre.filter_links_view()[j as int] == ((source, filter)) && (forall|
                            k: int,
                        |
                            0 <= k < j ==> #[trigger] pre.filter_links_view()[k] != (
                            (source, filter))) && self.filter_links_view()
                            == pre.filter_links_view().remove(j as int));
                    }
                }
                return true;
            }
            j = j + 1;
        }
        false
    }

    /// A source's type id and name, as owned text.
    pub(crate) fn source_strings(&self, h: usize) -> (r: (String, String))
        requires
            self.wf(),
            is_source(self.objects_view(), h),
        ensures
            r.0@ == slot_of(self.objects_view(), h).body->SourceBody_id@,
            r.1@ == slot_of(self.objects_view(), h).body->SourceBody_name@,
    {
        let idx = h - 1;
        match &self.objects[idx] {
            Some(slot) => match &slot.body {
                ObjectBody::SourceBody { id, name, .. } => (id.clone(), name.clone()),
                _ => (String::new(), String::new()),
            },
            None => (String::new(), String::new()),
        }
    }

    /// Reads a text setting of a source, three-state as
    /// `ObsData::get_string`.
    pub(crate) fn source_setting_string(&self, h: usize, key: &str) -> (r: Result<
        Option<String>,
        ObsError,
    >)
        requires
            self.wf(),
            is_source(self.objects_view(), h),
        ensures
            ({
                let settings = slot_of(self.objects_view(), h).body->SourceBody_settings;
                match settings.lookup(key@) {
                    None => r == Ok::<Option<String>, ObsError>(None),
                    Some(v) => match v {
                        crate::data::ObsValue::Text(t) => r matches Ok(o) && o matches Some(s) && s@
                            == t@,
                        _ => r == Err::<Option<String>, ObsError>(ObsError::StringConversionError),
                    },
                }
            }),
    {
        let idx = h - 1;
        match &self.objects[idx] {
            Some(slot) => match &slot.body {
                ObjectBody::SourceBody { settings, .. } => settings.get_string(key),
                _ => Ok(None),
            },
            None => Ok(None),
        }
    }

    /// Applies a batch of settings writes to a source, signalling exactly
    /// one update on its settings object.
    pub(crate) fn source_apply_updater(&mut self, h: usize, updater: crate::data::ObsDataUpdater)
        requires
            old(self).wf(),
            is_source(old(self).objects_view(), h),
            slot_of(old(self).objects_view(), h).body->SourceBody_settings.update_signals()
                < u64::MAX,
        ensures
            final(self).wf(),
            ({
                let pre_slot = slot_of(old(self).objects_view(), h);
                let pre_data = pre_slot.body->SourceBody_settings;
                let post_data = slot_of(final(self).objects_view(), h).body->SourceBody_settings;
                &&& final(self).objects_view() == old(self).objects_view().update(
                    h - 1,
                    Some(ObjectSlot {
                        shares: pre_slot.shares,
                        body: ObjectBody::SourceBody {
                            id: pre_slot.body->SourceBody_id,
                            name: pre_slot.body->SourceBody_name,
                            settings: post_data,
                        },
                    }),
                )
                &&& forall|k: Seq<char>| #![auto] post_data.lookup(k) == (match crate::data::kv_find_last(
                    updater.pending_view(),
                    k,
                ) {
                    Some(v) => Some(v),
                    None => pre_data.lookup(k),
                })
                &&& post_data.update_signals() == pre_data.update_signals() + 1
                &&& pre_data.wf() ==> post_data.wf()
            }),
            final(self).atts_view() == old(self).atts_view(),
            final(self).filter_links_view() == old(self).filter_links_view(),
            same_channels(*old(self), *final(self)),
            same_counts(*old(self), *final(self)),
            same_procs(*old(self), *final(self)),
            same_video(*old(self), *final(self)),
    {
        let ghost pre = *self;
        let idx = h - 1;
        match &mut self.objects[idx] {
            Some(slot) => match &mut slot.body {
                ObjectBody::SourceBody { settings, .. } => {
                    updater.update(settings);
                },
                _ => {},
            },
            None => {},
        }
        proof {
            let s2 = slot_of(self.objects_view(), h);
            assert(self.objects_view() =~= pre.objects_view().update(h - 1, Some(s2)));
            lemma_wf_update_same_kind(pre, *self, h, s2);
        }
    }

    /// How many counted objects are live.
    pub(crate) fn live_objects(&self) -> (r: usize)
        requires
            self.wf(),
        ensures
            r == live_count(self.objects_view()),
    {
        proof {
            lemma_live_count_take_all(self.objects_view());
        }
        let mut c: usize = 0;
        let mut j: usize = 0;
        proof {
            assert(self.objects@.take(0) =~= Seq::<Option<ObjectSlot>>::empty());
        }
        while j < self.objects.len()
            invariant
                self.wf(),
                j <= self.objects@.len(),
                c <= j,
                c == live_count(self.objects@.take(j as int)),
            decreases self.objects@.len() - j,
        {
            proof {
                assert(self.objects@.take(j + 1).drop_last() =~= self.objects@.take(j as int));
                assert(self.objects@.take(j + 1).last() == self.objects@[j as int]);
            }
            let is_counted = match &self.objects[j] {
                Some(slot) => match &slot.body {
                    ObjectBody::ItemBody { .. } => false,
                    _ => true,
                },
                None => false,
            };
            if is_counted {
                c = c + 1;
            }
            j = j + 1;
        }
        proof {
            assert(self.objects@.take(self.objects@.len() as int) =~= self.objects@);
        }
        c
    }

    /// The retain and release counters, in that order.
    pub(crate) fn counters(&self) -> (r: (u64, u64))
        ensures
            r.0 == self.retains(),
            r.1 == self.releases(),
    {
        (self.retain_calls, self.release_calls)
    }

    /// The procedure-call counter.
    pub(crate) fn proc_counter(&self) -> (r: u64)
        ensures
            r == self.procs(),
    {
        self.proc_calls
    }

    /// Whether a handle can take a release: live, counted, and holding at
    /// least one wrapper reference.
    pub(crate) fn releasable(&self, h: usize) -> (r: bool)
        requires
            self.wf(),
        ensures
            r == (live(self.objects_view(), h) && counted(slot_of(self.objects_view(), h).body)
                && slot_of(self.objects_view(), h).shares >= 1),
    {
        if h == 0 || h > self.objects.len() {
            return false;
        }
        match &self.objects[h - 1] {
            Some(slot) => match &slot.body {
                ObjectBody::ItemBody { .. } => false,
                _ => slot.shares >= 1,
            },
            None => false,
        }
    }

    /// How many live wrapper references a slot has.
    pub(crate) fn slot_shares(&self, h: usize) -> (r: u64)
        requires
            self.wf(),
            live(self.objects_view(), h),
        ensures
            r == slot_of(self.objects_view(), h).shares,
    {
        let idx = h - 1;
        match &self.objects[idx] {
            Some(slot) => slot.shares,
            None => 0,
        }
    }

    /// Whether any attachment row names the source.
    pub(crate) fn source_attached_exec(&self, source: usize) -> (r: bool)
        ensures
            r == source_attached(self.atts_view(), source),
    {
        let mut j: usize = 0;
        while j < self.attachments.len()
            invariant
                j <= self.attachments@.len(),
                forall|k: int| 0 <= k < j ==> self.attachments@[k].source != source,
            decreases self.attachments@.len() - j,
        {
            if self.attachments[j].source == source {
                return true;
            }
            j = j + 1;
        }
        false
    }

    /// Finds the attachment row for a scene and source pair: its index and
    /// its scene item handle.
    pub(crate) fn find_attachment(&self, scene: usize, source: usize) -> (r: Option<(usize, usize)>)
        ensures
            match r {
                Some(p) => p.0 < self.atts_view().len() && self.atts_view()[p.0 as int].scene
                    == scene && self.atts_view()[p.0 as int].source == source
                    && self.atts_view()[p.0 as int].item == p.1 && has_attachment(
                    self.atts_view(),
                    scene,
                    source,
                ),
                None => !has_attachment(self.atts_view(), scene, source),
            },
    {
        let mut j: usize = 0;
        while j < self.attachments.len()
            invariant
                j <= self.attachments@.len(),
                forall|k: int|
                    0 <= k < j ==> !(self.attachments@[k].scene == scene
                        && self.attachments@[k].source == source),
            decreases self.attachments@.len() - j,
        {
            let a = self.attachments[j];
            if a.scene == scene && a.source == source {
                return Some((j, a.item));
            }
            j = j + 1;
        }
        None
    }

    /// How many sources the scene holds.
    pub(crate) fn count_scene_members(&self, scene: usize) -> (r: usize)
        ensures
            r == count_atts(self.atts_view(), scene),
    {
        let atts_len = self.attachments.len();
        let mut c: usize = 0;
        let mut j: usize = 0;
        proof {
            assert(self.attachments@.take(0) =~= Seq::<Attachment>::empty());
        }
        while j < atts_len
            invariant
                j <= self.attachments@.len(),
                atts_len == self.attachments@.len(),
                c <= j,
                c == count_atts(self.attachments@.take(j as int), scene),
            decreases self.attachments@.len() - j,
        {
            proof {
                assert(self.attachments@.take(j + 1).drop_last() =~= self.attachments@.take(
                    j as int,
                ));
                assert(self.attachments@.take(j + 1).last() == self.attachments@[j as int]);
            }
            if self.attachments[j].scene == scene {
                c = c + 1;
            }
            j = j + 1;
        }
        proof {
            assert(self.attachments@.take(atts_len as int) =~= self.attachments@);
        }
        c
    }

    /// Finds a source attached to the scene whose name is the given one.
    pub(crate) fn find_source_in_scene(&self, scene: usize, name: &str) -> (r: Option<usize>)
        requires
            self.wf(),
        ensures
            match r {
                Some(s) => has_attachment(self.atts_view(), scene, s) && is_source(
                    self.objects_view(),
                    s,
                ) && slot_of(self.objects_view(), s).body->SourceBody_name@ == name@,
                None => forall|k: int|
                    0 <= k < self.atts_view().len() && #[trigger] self.atts_view()[k].scene
                        == scene ==> slot_of(
                        self.objects_view(),
                        self.atts_view()[k].source,
                    ).body->SourceBody_name@ != name@,
            },
    {
        let mut j: usize = 0;
        while j < self.attachments.len()
            invariant
                self.wf(),
                j <= self.attachments@.len(),
                forall|k: int|
                    0 <= k < j && #[trigger] self.attachments@[k].scene == scene ==> slot_of(
                        self.objects_view(),
                        self.attachments@[k].source,
                    ).body->SourceBody_name@ != name@,
            decreases self.attachments@.len() - j,
        {
            let a = self.attachments[j];
            proof {
                assert(att_wf(self.objects_view(), self.atts_view()[j as int]));
            }
            if a.scene == scene {
                let idx = a.source - 1;
                let matches_name = match &self.objects[idx] {
                    Some(slot) => match &slot.body {
                        ObjectBody::SourceBody { name: n, .. } => str_eq(n.as_str(), name),
                        _ => false,
                    },
                    None => false,
                };
                if matches_name {
                    return Some(a.source);
                }
            }
            j = j + 1;
        }
        None
    }

    /// Creates a source and attaches it to the scene in one step: the
    /// source is born with one wrapper reference, and its scene item is
    /// recorded in the membership registry.
    pub(crate) fn attach_new_source(
        &mut self,
        scene: usize,
        id: String,
        name: String,
        settings: ObsData,
    ) -> (r: Result<(usize, usize), ObsError>)
        requires
            old(self).wf(),
            is_scene(old(self).objects_view(), scene),
        ensures
            final(self).wf(),
            attach_rel(*old(self), scene, id, name, settings, *final(self), r),
    {
        if self.objects.len() >= usize::MAX - 1 {
            return Err(ObsError::NullPointer);
        }
        let ghost pre = *self;
        self.objects.push(Some(ObjectSlot { shares: 1, body: ObjectBody::SourceBody { id, name, settings } }));
        let sh = self.objects.len();
        self.objects.push(Some(ObjectSlot {
            shares: 0,
            body: ObjectBody::ItemBody {
                scene,
                source: sh,
                locked: false,
                transform: crate::transform::ObsTransformInfo {
                    pos: crate::graphics::Vec2 { x: 0, y: 0 },
                    scale: crate::graphics::Vec2 { x: 1, y: 1 },
                    alignment: OBS_ALIGN_LEFT | OBS_ALIGN_TOP,
                    rot: 0,
                    bounds: crate::graphics::Vec2 { x: 0, y: 0 },
                    bounds_type: ObsBoundsType::Unbounded,
                    bounds_alignment: OBS_ALIGN_CENTER,
                    crop_to_bounds: false,
                },
            },
        }));
        let ih = self.objects.len();
        proof {
            assert(self.retain_calls < u64::MAX);
        }
        self.retain_calls = self.retain_calls + 1;
        self.attachments.push(Attachment { scene, source: sh, item: ih });
        proof {
            let o = pre.objects_view();
            let t = self.objects_view();
            let s1 = self.objects_view()[sh - 1]->0;
            let s2 = self.objects_view()[ih - 1]->0;
            assert(t == o.push(Some(s1)).push(Some(s2)));
            lemma_push_slot(o, Some(s1));
            lemma_push_slot(o.push(Some(s1)), Some(s2));
            lemma_live_count_push(o, Some(s1));
            lemma_live_count_push(o.push(Some(s1)), Some(s2));
            assert(live(t, sh) && slot_of(t, sh) == s1);
            assert(live(t, ih) && slot_of(t, ih) == s2);
            assert(self.atts_view() == pre.atts_view().push(Attachment { scene, source: sh, item: ih }));
            assert forall|i: int| 0 <= i < self.atts_view().len() implies att_wf(
                t,
                #[trigger] self.atts_view()[i],
            ) by {
                if i < pre.atts_view().len() {
                    assert(att_wf(o, pre.atts_view()[i]));
                } else {
                    assert(self.atts_view()[i] == (Attachment { scene, source: sh, item: ih }));
                    assert(is_scene(o, scene));
                }
            }
            assert forall|i: int, j: int| 0 <= i < j < self.atts_view().len() implies !(
            #[trigger] self.atts_view()[i].scene == #[trigger] self.atts_view()[j].scene
                && self.atts_view()[i].source == self.atts_view()[j].source) by {
                if j < pre.atts_view().len() {
                } else {
                    assert(att_wf(o, pre.atts_view()[i]));
                    assert(pre.atts_view()[i].source <= o.len());
                }
            }
            assert forall|i: int, j: int| 0 <= i < j < self.atts_view().len() implies self.atts_view()[i].item
                != self.atts_view()[j].item by {
                if j < pre.atts_view().len() {
                } else {
                    assert(att_wf(o, pre.atts_view()[i]));
                    assert(pre.atts_view()[i].item <= o.len());
                }
            }
            assert forall|h2: usize|
                #[trigger] is_source(t, h2) && slot_of(t, h2).shares == 0 implies source_attached(
                self.atts_view(),
                h2,
            ) by {
                if h2 <= o.len() {
                    assert(is_source(o, h2));
                    let w = choose|k: int|
                        0 <= k < pre.atts_view().len() && pre.atts_view()[k].source == h2;
                    assert(self.atts_view()[w].source == h2);
                } else if h2 == sh {
                    assert(slot_of(t, h2).shares == 1);
                }
            }
            assert forall|h2: usize|
                is_scene(t, h2) || is_output(t, h2) || is_filter(t, h2) implies #[trigger] slot_of(
                t,
                h2,
            ).shares >= 1 by {
                if h2 <= o.len() {
                    assert(live(o, h2) && slot_of(t, h2) == slot_of(o, h2));
                }
            }
            assert forall|h2: usize| #[trigger] is_item(t, h2) implies slot_of(t, h2).shares == 0
                && exists|i: int|
                0 <= i < self.atts_view().len() && self.atts_view()[i].item == h2 by {
                if h2 <= o.len() {
                    assert(slot_of(t, h2) == slot_of(o, h2));
                    assert(is_item(o, h2));
                    let w = choose|i: int|
                        0 <= i < pre.atts_view().len() && pre.atts_view()[i].item == h2;
                    assert(0 <= w < self.atts_view().len() && self.atts_view()[w].item == h2);
                } else if h2 == ih {
                    let w = self.atts_view().len() - 1;
                    assert(self.atts_view()[w].item == h2);
                } else {
                    assert(h2 == sh);
                    assert(counted(slot_of(t, h2).body));
                }
            }
        }
        Ok((sh, ih))
    }

    /// Removes a source from a scene: the membership row and the scene
    /// item go away, and the source itself is released when nothing else
    /// keeps it.
    pub(crate) fn detach_source(&mut self, scene: usize, source: usize) -> (r: Result<(), ObsError>)
        requires
            old(self).wf(),
        ensures
            final(self).wf(),
            detach_rel(*old(self), scene, source, *final(self), r),
    {
        let found = self.find_attachment(scene, source);
        match found {
            None => Err(ObsError::SourceNotFound),
            Some((i, item)) => {
                let ghost pre = *self;
                proof {
                    assert(att_wf(pre.objects_view(), pre.atts_view()[i as int]));
                }
                self.attachments.remove(i);
                self.objects[item - 1] = None;
                let shares = match &self.objects[source - 1] {
                    Some(slot) => slot.shares,
                    None => 0,
                };
                let mut died = false;
                if shares == 0 && !self.source_attached_exec(source) {
                    self.objects[source - 1] = None;
                    proof {
                        lemma_live_count_at(pre.objects_view(), source);
                        assert(self.release_calls < u64::MAX);
                    }
                    self.release_calls = self.release_calls + 1;
                    died = true;
                }
                proof {
                    lemma_detach_wf(pre, *self, scene, source, i as int, died);
                }
                Ok(())
            },
        }
    }
}

/// The well-formedness and relation proof for `detach_source`, factored
/// out: `post` is `pre` with attachment row `i` removed, that row's item
/// slot killed, and, when `died`, the source slot killed and one release
/// issued.
pub proof fn lemma_detach_wf(pre: EngineCore, post: EngineCore, scene: usize, source: usize, i: int, died: bool)
    requires
        pre.wf(),
        0 <= i < pre.atts_view().len(),
        pre.atts_view()[i].scene == scene,
        pre.atts_view()[i].source == source,
        post.atts_view() == pre.atts_view().remove(i),
        post.objects_view() == if died {
            pre.objects_view().update(pre.atts_view()[i].item - 1, None).update(source - 1, None)
        } else {
            pre.objects_view().update(pre.atts_view()[i].item - 1, None)
        },
        died == (slot_of(pre.objects_view(), source).shares == 0 && !source_attached(
            pre.atts_view().remove(i),
            source,
        )),
        post.releases() == pre.releases() + if died {
            1int
        } else {
            0int
        },
        post.retains() == pre.retains(),
        post.filter_links_view() == pre.filter_links_view(),
        same_channels(pre, post),
        same_procs(pre, post),
        same_video(pre, post),
    ensures
        post.wf(),
        detach_rel(pre, scene, source, post, Ok(())),
{
    let o = pre.objects_view();
    let atts = pre.atts_view();
    let a = atts[i];
    let item = a.item;
    let t = post.objects_view();
    let atts2 = post.atts_view();
    assert(att_wf(o, a));
    let o1 = o.update(item - 1, None);
    lemma_kill_slot(o, item);
    lemma_live_count_update(o, item - 1, None);
    assert(live_contrib(o[item - 1]) == 0);
    if died {
        lemma_kill_slot(o1, source);
        lemma_live_count_update(o1, source - 1, None);
        assert(o1[source - 1] == o[source - 1]);
        lemma_live_count_at(o, source);
    }
    // remove keeps every other row, with indexes shifted past i
    assert forall|k: int| 0 <= k < atts2.len() implies atts2[k] == (if k < i {
        atts[k]
    } else {
        atts[k + 1]
    }) by {}
    // no surviving row names the killed handles
    assert forall|k: int| 0 <= k < atts2.len() implies att_wf(t, #[trigger] atts2[k]) by {
        let b = atts2[k];
        let k0 = if k < i {
            k
        } else {
            k + 1
        };
        assert(b == atts[k0]);
        assert(att_wf(o, b));
        assert(b.item != item);
        assert(b.scene != item && b.scene != source);
        assert(b.source != item);
        if died {
            assert(b.source != source) by {
                if b.source == source {
                    assert(source_attached(atts2, source));
                }
            }
        }
    }
    assert forall|x: int, y: int| 0 <= x < y < atts2.len() implies !(#[trigger] atts2[x].scene
        == #[trigger] atts2[y].scene && atts2[x].source == atts2[y].source) by {
        let x0 = if x < i {
            x
        } else {
            x + 1
        };
        let y0 = if y < i {
            y
        } else {
            y + 1
        };
        assert(atts2[x] == atts[x0] && atts2[y] == atts[y0]);
    }
    assert forall|x: int, y: int| 0 <= x < y < atts2.len() implies atts2[x].item != atts2[y].item by {
        let x0 = if x < i {
            x
        } else {
            x + 1
        };
        let y0 = if y < i {
            y
        } else {
            y + 1
        };
        assert(atts2[x] == atts[x0] && atts2[y] == atts[y0]);
    }
    assert forall|h2: usize|
        #[trigger] is_source(t, h2) && slot_of(t, h2).shares == 0 implies source_attached(
        atts2,
        h2,
    ) by {
        assert(h2 != item);
        if died {
            assert(h2 != source);
        }
        assert(is_source(o, h2) && slot_of(t, h2) == slot_of(o, h2));
        assert(source_attached(atts, h2));
        if h2 == source {
            // the source survived, so either a wrapper reference or another
            // attachment keeps it; shares are unchanged, so it is attached
            assert(slot_of(o, h2).shares == 0);
            assert(source_attached(atts2, h2));
        } else {
            let w = choose|k: int| 0 <= k < atts.len() && atts[k].source == h2;
            assert(w != i);
            let w2 = if w < i {
                w
            } else {
                w - 1
            };
            assert(atts2[w2] == atts[w]);
        }
    }
    assert forall|h2: usize|
        is_scene(t, h2) || is_output(t, h2) || is_filter(t, h2) implies #[trigger] slot_of(
        t,
        h2,
    ).shares >= 1 by {
        assert(h2 != item);
        if died {
            assert(h2 != source);
        }
        assert(slot_of(t, h2) == slot_of(o, h2) && live(o, h2));
    }
    assert forall|h2: usize| #[trigger] is_item(t, h2) implies slot_of(t, h2).shares == 0
        && exists|k: int| 0 <= k < atts2.len() && atts2[k].item == h2 by {
        assert(h2 != item);
        if died {
            assert(h2 != source);
        }
        assert(slot_of(t, h2) == slot_of(o, h2) && live(o, h2));
        assert(is_item(o, h2));
        let w = choose|k: int| 0 <= k < atts.len() && atts[k].item == h2;
        assert(w != i);
        let w2 = if w < i {
            w
        } else {
            w - 1
        };
        assert(atts2[w2] == atts[w]);
    }
    assert(has_attachment(atts, scene, source));
}

impl EngineCore {
    /// Finds any source attached to the scene, if one is.
    fn find_source_of_scene(&self, scene: usize) -> (r: Option<usize>)
        ensures
            match r {
                Some(s) => has_attachment(self.atts_view(), scene, s),
                None => forall|k: int|
                    0 <= k < self.atts_view().len() ==> (#[trigger] self.atts_view()[k]).scene
                        != scene,
            },
    {
        let mut j: usize = 0;
        while j < self.attachments.len()
            invariant
                j <= self.attachments@.len(),
                forall|k: int| 0 <= k < j ==> (#[trigger] self.attachments@[k]).scene != scene,
            decreases self.attachments@.len() - j,
        {
            let a = self.attachments[j];
            if a.scene == scene {
                return Some(a.source);
            }
            j = j + 1;
        }
        None
    }

    /// Tears a dying scene down: detaches every member source, then
    /// releases the scene itself.
    fn teardown_scene(&mut self, h: usize)
        requires
            old(self).wf(),
            is_scene(old(self).objects_view(), h),
        ensures
            final(self).wf(),
            scene_teardown_rel(*old(self), h, *final(self)),
        decreases count_atts(old(self).atts_view(), h),
    {
        proof {
            lemma_count_atts_nonneg(self.atts_view(), h);
        }
        let found = self.find_source_of_scene(h);
        match found {
            None => {
                let ghost pre = *self;
                self.objects[h - 1] = None;
                proof {
                    lemma_live_count_at(pre.objects_view(), h);
                    assert(self.release_calls < u64::MAX);
                }
                self.release_calls = self.release_calls + 1;
                proof {
                    let o = pre.objects_view();
                    let t = self.objects_view();
                    let atts = pre.atts_view();
                    lemma_kill_slot(o, h);
                    lemma_live_count_update(o, h - 1, None);
                    assert(live_contrib(o[h - 1]) == 1);
                    assert forall|k: int| 0 <= k < atts.len() implies att_wf(
                        t,
                        #[trigger] atts[k],
                    ) by {
                        let b = atts[k];
                        assert(att_wf(o, b));
                        assert(b.scene != h && b.item != h && b.source != h);
                    }
                    assert forall|h2: usize|
                        #[trigger] is_source(t, h2) && slot_of(t, h2).shares == 0
                            implies source_attached(self.atts_view(), h2) by {
                        assert(h2 != h);
                        assert(is_source(o, h2) && slot_of(t, h2) == slot_of(o, h2));
                    }
                    assert forall|h2: usize|
                        is_scene(t, h2) || is_output(t, h2) || is_filter(t, h2)
                            implies #[trigger] slot_of(t, h2).shares >= 1 by {
                        assert(h2 != h);
                        assert(slot_of(t, h2) == slot_of(o, h2) && live(o, h2));
                    }
                    assert forall|h2: usize| #[trigger] is_item(t, h2) implies slot_of(
                        t,
                        h2,
                    ).shares == 0 && exists|k: int|
                        0 <= k < self.atts_view().len() && self.atts_view()[k].item == h2 by {
                        assert(h2 != h);
                        assert(slot_of(t, h2) == slot_of(o, h2) && live(o, h2));
                        assert(is_item(o, h2));
                        let w = choose|k: int| 0 <= k < atts.len() && atts[k].item == h2;
                        assert(0 <= w < self.atts_view().len() && self.atts_view()[w].item == h2);
                    }
                    lemma_without_scene_id(atts, h);
                    lemma_count_atts_nonneg(atts, h);
                }
            },
            Some(source) => {
                let ghost pre = *self;
                let r = self.detach_source(h, source);
                let ghost mid = *self;
                proof {
                    let i = choose|i: int|
                        #![auto]
                        {
                            &&& 0 <= i < pre.atts_view().len()
                            &&& pre.atts_view()[i].scene == h
                            &&& pre.atts_view()[i].source == source
                            &&& mid.atts_view() == pre.atts_view().remove(i)
                            &&& {
                                let item = pre.atts_view()[i].item;
                                let dies = slot_of(pre.objects_view(), source).shares == 0
                                    && !source_attached(pre.atts_view().remove(i), source);
                                &&& mid.objects_view() == if dies {
                                    pre.objects_view().update(item - 1, None).update(
                                        source - 1,
                                        None,
                                    )
                                } else {
                                    pre.objects_view().update(item - 1, None)
                                }
                                &&& mid.releases() == pre.releases() + if dies {
                                    1int
                                } else {
                                    0int
                                }
                            }
                        };
                    lemma_count_atts_remove(pre.atts_view(), i, h);
                    lemma_without_scene_remove(pre.atts_view(), i, h);
                    lemma_count_atts_nonneg(mid.atts_view(), h);
                    let item = pre.atts_view()[i].item;
                    assert(att_wf(pre.objects_view(), pre.atts_view()[i]));
                    assert(h != item && h != source);
                    lemma_kill_slot(pre.objects_view(), item);
                    if slot_of(pre.objects_view(), source).shares == 0 && !source_attached(
                        pre.atts_view().remove(i),
                        source,
                    ) {
                        lemma_kill_slot(pre.objects_view().update(item - 1, None), source);
                    }
                    assert(is_scene(mid.objects_view(), h));
                    assert(slot_of(mid.objects_view(), h) == slot_of(pre.objects_view(), h));
                }
                self.teardown_scene(h);
                proof {
                    let o = pre.objects_view();
                    assert forall|i2: int| 0 <= i2 < o.len() implies #[trigger] self.objects_view()[i2]
                        == o[i2] || self.objects_view()[i2] is None by {
                        assert(self.objects_view()[i2] == mid.objects_view()[i2]
                            || self.objects_view()[i2] is None);
                        assert(mid.objects_view()[i2] == o[i2] || mid.objects_view()[i2] is None);
                    }
                    assert forall|h2: usize|
                        h2 != h && live(o, h2) && (is_scene(o, h2) || is_output(o, h2) || is_filter(
                            o,
                            h2,
                        ) || (is_source(o, h2) && slot_of(o, h2).shares >= 1)) implies live(
                        self.objects_view(),
                        h2,
                    ) && slot_of(self.objects_view(), h2) == slot_of(o, h2) by {
                        assert(live(mid.objects_view(), h2) && slot_of(mid.objects_view(), h2)
                            == slot_of(o, h2));
                    }
                }
            },
        }
    }

    /// Drops one wrapper reference; the last drop releases the native
    /// object, tearing a scene down and keeping a still-attached source
    /// alive for its scenes.
    pub(crate) fn release(&mut self, h: usize)
        requires
            old(self).wf(),
            live(old(self).objects_view(), h),
            counted(slot_of(old(self).objects_view(), h).body),
            slot_of(old(self).objects_view(), h).shares >= 1,
        ensures
            final(self).wf(),
            release_rel(*old(self), h, *final(self)),
    {
        let ghost pre = *self;
        let shares = self.slot_shares(h);
        let idx = h - 1;
        if shares > 1 {
            match &mut self.objects[idx] {
                Some(slot) => {
                    slot.shares = slot.shares - 1;
                },
                None => {},
            }
            proof {
                let s = slot_of(pre.objects_view(), h);
                let s2 = ObjectSlot { shares: (s.shares - 1) as u64, body: s.body };
                assert(self.objects_view() =~= pre.objects_view().update(h - 1, Some(s2)));
                lemma_wf_update_same_kind(pre, *self, h, s2);
            }
            return ;
        }
        let is_scn = match &self.objects[idx] {
            Some(slot) => match &slot.body {
                ObjectBody::SceneBody { .. } => true,
                _ => false,
            },
            None => false,
        };
        if is_scn {
            self.teardown_scene(h);
            return ;
        }
        let is_src = match &self.objects[idx] {
            Some(slot) => match &slot.body {
                ObjectBody::SourceBody { .. } => true,
                _ => false,
            },
            None => false,
        };
        if is_src && self.source_attached_exec(h) {
            match &mut self.objects[idx] {
                Some(slot) => {
                    slot.shares = 0;
                },
                None => {},
            }
            proof {
                let s = slot_of(pre.objects_view(), h);
                let s2 = ObjectSlot { shares: 0u64, body: s.body };
                assert(self.objects_view() =~= pre.objects_view().update(h - 1, Some(s2)));
                lemma_wf_update_same_kind(pre, *self, h, s2);
            }
            return ;
        }
        self.objects[idx] = None;
        proof {
            lemma_live_count_at(pre.objects_view(), h);
            assert(self.release_calls < u64::MAX);
        }
        self.release_calls = self.release_calls + 1;
        proof {
            assert(self.objects_view() =~= pre.objects_view().update(h - 1, None));
            lemma_wf_kill_unreferenced(pre, *self, h);
        }
    }
}

} // verus!
