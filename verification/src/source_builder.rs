//! The generic source builder: every capture-source builder is a typed
//! wrapper over one core that carries a name and a settings object, with a
//! declarative setter per native settings key.

use vstd::prelude::*;

use crate::context::ObsContext;
use crate::data::ObsData;
use crate::data::ObsValue;
use crate::error::ObsError;
use crate::scenes::ObsSceneRef;
use crate::sources::ObsSourceRef;
use crate::sources::SourceInfo;
use crate::utils::ObsString;

verus! {

/// The state every source builder carries: the source's name and its
/// settings under construction.
pub struct SourceBuilderCore {
    name: ObsString,
    settings: Option<ObsData>,
    hotkeys: Option<ObsData>,
}

impl SourceBuilderCore {
    /// The source's name.
    pub closed spec fn name_view(self) -> Seq<char> {
        self.name@
    }

    /// The settings under construction, if any key has been set.
    pub closed spec fn settings_spec(self) -> Option<ObsData> {
        self.settings
    }

    /// The hotkey data, if any.
    pub closed spec fn hotkeys_spec(self) -> Option<ObsData> {
        self.hotkeys
    }

    /// The value a settings key will carry, if set.
    pub open spec fn setting_of(self, k: Seq<char>) -> Option<ObsValue> {
        match self.settings_spec() {
            Some(d) => d.lookup(k),
            None => None,
        }
    }

    /// The settings under construction are well-formed.
    pub open spec fn builder_wf(self) -> bool {
        self.settings_spec() matches Some(d) ==> d.wf()
    }

    /// How many settings writes the builder has made.
    pub open spec fn signal_count(self) -> int {
        match self.settings_spec() {
            Some(d) => d.update_signals() as int,
            None => 0,
        }
    }

    /// Another key can still be set.
    pub open spec fn can_set(self) -> bool {
        self.signal_count() < u64::MAX
    }

    /// A builder core with the given name and no settings.
    pub fn new(name: &str) -> (r: SourceBuilderCore)
        ensures
            r.name_view() == name@,
            r.settings_spec() is None,
            r.hotkeys_spec() is None,
            r.builder_wf(),
            r.can_set(),
            forall|k: Seq<char>| #![auto] r.setting_of(k) is None,
    {
        SourceBuilderCore { name: ObsString::new(name), settings: None, hotkeys: None }
    }

    /// The source's name.
    pub fn name_obs(&self) -> (r: ObsString)
        ensures
            r@ == self.name_view(),
    {
        ObsString::from_string(self.name.to_text())
    }

    /// Sets one settings key.
    pub fn set_value(self, key: &str, value: ObsValue) -> (r: SourceBuilderCore)
        requires
            self.can_set(),
            self.builder_wf(),
        ensures
            r.builder_wf(),
            r.signal_count() == self.signal_count() + 1,
            r.name_view() == self.name_view(),
            r.hotkeys_spec() == self.hotkeys_spec(),
            r.setting_of(key@) == Some(value),
            forall|k: Seq<char>| k != key@ ==> r.setting_of(k) == self.setting_of(k),
    {
        let mut d = match self.settings {
            Some(d) => d,
            None => ObsData::new(),
        };
        d.set_value(key, value);
        SourceBuilderCore { name: self.name, settings: Some(d), hotkeys: self.hotkeys }
    }

    /// Sets a text settings key.
    pub fn set_string_value(self, key: &str, value: &str) -> (r: SourceBuilderCore)
        requires
            self.can_set(),
            self.builder_wf(),
        ensures
            r.builder_wf(),
            r.signal_count() == self.signal_count() + 1,
            r.name_view() == self.name_view(),
            r.hotkeys_spec() == self.hotkeys_spec(),
            r.setting_of(key@) matches Some(v) && v matches ObsValue::Text(t) && t@ == value@,
            forall|k: Seq<char>| k != key@ ==> r.setting_of(k) == self.setting_of(k),
    {
        self.set_value(key, ObsValue::Text(value.to_owned()))
    }

    /// Sets a boolean settings key.
    pub fn set_bool_value(self, key: &str, value: bool) -> (r: SourceBuilderCore)
        requires
            self.can_set(),
            self.builder_wf(),
        ensures
            r.builder_wf(),
            r.signal_count() == self.signal_count() + 1,
            r.name_view() == self.name_view(),
            r.hotkeys_spec() == self.hotkeys_spec(),
            r.setting_of(key@) == Some(ObsValue::Boolean(value)),
            forall|k: Seq<char>| k != key@ ==> r.setting_of(k) == self.setting_of(k),
    {
        self.set_value(key, ObsValue::Boolean(value))
    }

    /// Sets an integer settings key.
    pub fn set_int_value(self, key: &str, value: i64) -> (r: SourceBuilderCore)
        requires
            self.can_set(),
            self.builder_wf(),
        ensures
            r.builder_wf(),
            r.signal_count() == self.signal_count() + 1,
            r.name_view() == self.name_view(),
            r.hotkeys_spec() == self.hotkeys_spec(),
            r.setting_of(key@) == Some(ObsValue::Integer(value)),
            forall|k: Seq<char>| k != key@ ==> r.setting_of(k) == self.setting_of(k),
    {
        self.set_value(key, ObsValue::Integer(value))
    }

    /// Takes the builder apart: name, settings, hotkey data.
    pub fn into_parts(self) -> (r: (ObsString, Option<ObsData>, Option<ObsData>))
        ensures
            r.0@ == self.name_view(),
            r.1 == self.settings_spec(),
            r.2 == self.hotkeys_spec(),
    {
        (self.name, self.settings, self.hotkeys)
    }
}

/// Names the native plugin id a builder creates sources of.
pub trait ObsSourceBuilderId {
    /// The native source type id, as a character sequence.
    spec fn id_spec() -> Seq<char>;

    /// The native source type id.
    fn get_id() -> (r: ObsString)
        ensures
            r@ == Self::id_spec(),
    ;
}

/// A builder of sources: a typed face over `SourceBuilderCore` that can
/// hand its source to a scene.
pub trait ObsSourceBuilder: ObsSourceBuilderId + Sized {
    /// The builder's carried state.
    spec fn builder_core(self) -> SourceBuilderCore;

    /// Hands the carried state over.
    fn into_core(self) -> (r: SourceBuilderCore)
        ensures
            r == self.builder_core(),
    ;

    /// The name the source will carry.
    fn get_name(&self) -> (r: ObsString)
        ensures
            r@ == self.builder_core().name_view(),
    ;

    /// Creates the source this builder describes and attaches it to the
    /// scene: the source carries the builder's type id, name and settings,
    /// and the scene records the membership.  The sole failure with a live
    /// worker is handle-space exhaustion.
    fn add_to_scene(self, ctx: &mut ObsContext, scene: &ObsSceneRef) -> (r: Result<
        ObsSourceRef,
        ObsError,
    >)
        requires
            old(ctx).wf(),
            scene.valid(old(ctx).core_view()),
        ensures
            final(ctx).wf(),
            !old(ctx).alive() ==> (r == Err::<ObsSourceRef, ObsError>(ObsError::ThreadFailure)
                && *final(ctx) == *old(ctx)),
            old(ctx).alive() ==> (r is Err <==> old(ctx).core_view().objects_view().len() + 2
                > usize::MAX),
            old(ctx).alive() ==> match r {
                Ok(src) => {
                    &&& src.valid(final(ctx).core_view())
                    &&& src.name_view() == self.builder_core().name_view()
                    &&& src.id_view() == Self::id_spec()
                    &&& crate::engine::slot_of(
                        final(ctx).core_view().objects_view(),
                        src.handle_spec(),
                    ).body->SourceBody_id@ == Self::id_spec()
                    &&& crate::engine::has_attachment(
                        final(ctx).core_view().atts_view(),
                        scene.handle_spec(),
                        src.handle_spec(),
                    )
                    &&& ({
                        let stored = crate::engine::slot_of(
                            final(ctx).core_view().objects_view(),
                            src.handle_spec(),
                        ).body->SourceBody_settings;
                        &&& (self.builder_core().settings_spec() matches Some(d) ==> stored == d)
                        &&& (self.builder_core().settings_spec() is None
                            ==> stored.user_view().len() == 0 && stored.default_view().len() == 0)
                    })
                    &&& final(ctx).alive()
                },
                Err(e) => e is NullPointer,
            },
    {
        let core = self.into_core();
        let (name, settings, hotkeys) = core.into_parts();
        let info = SourceInfo::new(Self::get_id(), name, settings, hotkeys);
        let r = scene.add_source(ctx, info);
        proof {
            if r is Ok {
                let atts = ctx.core_view().atts_view();
                assert(atts[atts.len() - 1].scene == scene.handle_spec() && atts[atts.len()
                    - 1].source == r->Ok_0.handle_spec());
                assert(crate::engine::has_attachment(
                    atts,
                    scene.handle_spec(),
                    r->Ok_0.handle_spec(),
                ));
            }
        }
        r
    }
}

} // verus!
