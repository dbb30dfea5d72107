//! Source and filter references: wrappers around native handles whose
//! lifetime is paired with native retain/release through the engine.

use vstd::prelude::*;

use crate::context::ObsContext;
use crate::data::ObsData;
use crate::engine::is_filter;
use crate::engine::is_source;
use crate::engine::release_rel;
use crate::engine::slot_of;
use crate::engine::EngineCore;
use crate::error::ObsError;
use crate::runtime::NativeRequest;
use crate::runtime::NativeResponse;
use crate::utils::NativeHandle;
use crate::utils::ObsObjectKind;
use crate::utils::ObsString;

verus! {

/// Everything needed to create a source: its type id, its name, and its
/// settings.  Hotkey data is carried for API parity; the model does not
/// interpret it.
pub struct SourceInfo {
    pub id: ObsString,
    pub name: ObsString,
    pub settings: Option<ObsData>,
    pub hotkey_data: Option<ObsData>,
}

impl SourceInfo {
    /// Bundles the creation arguments.
    pub fn new(id: ObsString, name: ObsString, settings: Option<ObsData>, hotkey_data: Option<
        ObsData,
    >) -> (r: SourceInfo)
        ensures
            r == (SourceInfo { id, name, settings, hotkey_data }),
    {
        SourceInfo { id, name, settings, hotkey_data }
    }
}

/// Everything needed to create an output or a filter.
pub struct ObjectInfo {
    pub id: ObsString,
    pub name: ObsString,
    pub settings: Option<ObsData>,
    pub hotkey_data: Option<ObsData>,
}

impl ObjectInfo {
    /// Bundles the creation arguments.
    pub fn new(id: ObsString, name: ObsString, settings: Option<ObsData>, hotkey_data: Option<
        ObsData,
    >) -> (r: ObjectInfo)
        ensures
            r == (ObjectInfo { id, name, settings, hotkey_data }),
    {
        ObjectInfo { id, name, settings, hotkey_data }
    }
}

/// A reference to a live source.  Dropping the last reference while no
/// scene holds the source releases the native object; `release` is that
/// drop made explicit, routed through the engine.
pub struct ObsSourceRef {
    pub(crate) handle: usize,
    pub(crate) name: ObsString,
    pub(crate) id: ObsString,
}

impl ObsSourceRef {
    /// The native handle this reference names.
    pub closed spec fn handle_spec(self) -> usize {
        self.handle
    }

    /// The source's name.
    pub closed spec fn name_view(self) -> Seq<char> {
        self.name@
    }

    /// The source's type id.
    pub closed spec fn id_view(self) -> Seq<char> {
        self.id@
    }

    /// The reference names a live source of the engine.
    pub open spec fn valid(self, core: EngineCore) -> bool {
        is_source(core.objects_view(), self.handle_spec())
    }

    /// The raw handle value.
    pub(crate) fn raw_handle(&self) -> (r: usize)
        ensures
            r == self.handle_spec(),
    {
        self.handle
    }

    /// Builds a reference from its parts.
    pub(crate) fn from_parts(handle: usize, name: ObsString, id: ObsString) -> (r: ObsSourceRef)
        ensures
            r.handle_spec() == handle,
            r.name_view() == name@,
            r.id_view() == id@,
    {
        ObsSourceRef { handle, name, id }
    }

    /// The source's name.
    pub fn name(&self) -> (r: ObsString)
        ensures
            r@ == self.name_view(),
    {
        ObsString::from_string(self.name.to_text())
    }

    /// The source's type id.
    pub fn id(&self) -> (r: ObsString)
        ensures
            r@ == self.id_view(),
    {
        ObsString::from_string(self.id.to_text())
    }

    /// The tagged native handle; it may only be dereferenced on the
    /// affinity thread.
    pub fn as_ptr(&self) -> (r: NativeHandle)
        ensures
            r == (NativeHandle { raw: self.handle_spec(), kind: ObsObjectKind::Source }),
    {
        NativeHandle { raw: self.handle, kind: ObsObjectKind::Source }
    }

    /// Reads one text setting of the source, three-state as
    /// `ObsData::get_string`.
    pub fn get_setting_string(&self, ctx: &ObsContext, key: &str) -> (r: Result<
        Option<String>,
        ObsError,
    >)
        requires
            ctx.wf(),
            self.valid(ctx.core_view()),
        ensures
            ({
                let settings = slot_of(
                    ctx.core_view().objects_view(),
                    self.handle_spec(),
                ).body->SourceBody_settings;
                match settings.lookup(key@) {
                    None => r == Ok::<Option<String>, ObsError>(None),
                    Some(v) => match v {
                        crate::data::ObsValue::Text(t) => r matches Ok(o) && o matches Some(s) && s@
                            == t@,
                        _ => r == Err::<Option<String>, ObsError>(ObsError::StringConversionError),
                    },
                }
            }),
    {
        ctx.source_setting_string(self.handle, key)
    }

    /// Takes one more reference on the source.
    pub fn clone_ref(&self, ctx: &mut ObsContext) -> (r: Result<ObsSourceRef, ObsError>)
        requires
            old(ctx).wf(),
            self.valid(old(ctx).core_view()),
        ensures
            final(ctx).wf(),
            !old(ctx).alive() ==> (r == Err::<ObsSourceRef, ObsError>(ObsError::ThreadFailure)
                && *final(ctx) == *old(ctx)),
            old(ctx).alive() ==> match r {
                Ok(src) => {
                    &&& src.handle_spec() == self.handle_spec()
                    &&& src.name_view() == self.name_view()
                    &&& src.id_view() == self.id_view()
                    &&& src.valid(final(ctx).core_view())
                    &&& final(ctx).core_view().objects_view() == old(
                        ctx,
                    ).core_view().objects_view().update(
                        self.handle_spec() - 1,
                        Some(crate::engine::ObjectSlot {
                            shares: (slot_of(
                                old(ctx).core_view().objects_view(),
                                self.handle_spec(),
                            ).shares + 1) as u64,
                            body: slot_of(
                                old(ctx).core_view().objects_view(),
                                self.handle_spec(),
                            ).body,
                        }),
                    )
                    &&& crate::engine::same_registry(old(ctx).core_view(), final(ctx).core_view())
                    &&& crate::engine::same_channels(old(ctx).core_view(), final(ctx).core_view())
                    &&& crate::engine::same_counts(old(ctx).core_view(), final(ctx).core_view())
                    &&& final(ctx).alive()
                },
                Err(e) => e is InvalidOperation && *final(ctx) == *old(ctx) && slot_of(
                    old(ctx).core_view().objects_view(),
                    self.handle_spec(),
                ).shares == u64::MAX,
            },
    {
        if !ctx.is_alive() {
            return Err(ObsError::ThreadFailure);
        }
        let shares = ctx.slot_shares(self.handle);
        if shares == u64::MAX {
            return Err(ObsError::InvalidOperation("reference count saturated".to_owned()));
        }
        match ctx.dispatch(NativeRequest::AddRef { handle: self.handle }) {
            Ok(_) => Ok(ObsSourceRef {
                handle: self.handle,
                name: ObsString::from_string(self.name.to_text()),
                id: ObsString::from_string(self.id.to_text()),
            }),
            Err(e) => Err(e),
        }
    }

    /// Drops this reference: the explicit form of the drop guard.  The
    /// last drop releases the native source unless a scene still holds it.
    pub fn release(self, ctx: &mut ObsContext) -> (r: Result<(), ObsError>)
        requires
            old(ctx).wf(),
            self.valid(old(ctx).core_view()),
            slot_of(old(ctx).core_view().objects_view(), self.handle_spec()).shares >= 1,
        ensures
            final(ctx).wf(),
            !old(ctx).alive() ==> (r == Err::<(), ObsError>(ObsError::ThreadFailure) && *final(ctx)
                == *old(ctx)),
            old(ctx).alive() ==> r == Ok::<(), ObsError>(()) && release_rel(
                old(ctx).core_view(),
                self.handle_spec(),
                final(ctx).core_view(),
            ) && final(ctx).alive(),
    {
        ctx.release_handle(self.handle)
    }
}

/// A reference to a live filter.
pub struct ObsFilterRef {
    pub(crate) handle: usize,
    pub(crate) name: ObsString,
    pub(crate) id: ObsString,
}

impl ObsFilterRef {
    /// The native handle this reference names.
    pub closed spec fn handle_spec(self) -> usize {
        self.handle
    }

    /// The filter's name.
    pub closed spec fn name_view(self) -> Seq<char> {
        self.name@
    }

    /// The filter's type id.
    pub closed spec fn id_view(self) -> Seq<char> {
        self.id@
    }

    /// The reference names a live filter of the engine.
    pub open spec fn valid(self, core: EngineCore) -> bool {
        is_filter(core.objects_view(), self.handle_spec())
    }

    /// The raw handle value.
    pub(crate) fn raw_handle(&self) -> (r: usize)
        ensures
            r == self.handle_spec(),
    {
        self.handle
    }

    /// The tagged native handle.
    pub fn as_ptr(&self) -> (r: NativeHandle)
        ensures
            r == (NativeHandle { raw: self.handle_spec(), kind: ObsObjectKind::Filter }),
    {
        NativeHandle { raw: self.handle, kind: ObsObjectKind::Filter }
    }

    /// Drops this reference; the last drop releases the native filter.
    pub fn release(self, ctx: &mut ObsContext) -> (r: Result<(), ObsError>)
        requires
            old(ctx).wf(),
            self.valid(old(ctx).core_view()),
        ensures
            final(ctx).wf(),
            !old(ctx).alive() ==> (r == Err::<(), ObsError>(ObsError::ThreadFailure) && *final(ctx)
                == *old(ctx)),
            old(ctx).alive() ==> r == Ok::<(), ObsError>(()) && release_rel(
                old(ctx).core_view(),
                self.handle_spec(),
                final(ctx).core_view(),
            ) && final(ctx).alive(),
    {
        ctx.release_handle(self.handle)
    }
}

impl ObsContext {
    /// Creates a filter object.
    pub fn filter(&mut self, id: &str, name: &str) -> (r: Result<ObsFilterRef, ObsError>)
        requires
            old(self).wf(),
        ensures
            final(self).wf(),
            !old(self).alive() ==> (r == Err::<ObsFilterRef, ObsError>(ObsError::ThreadFailure)
                && *final(self) == *old(self)),
            old(self).alive() ==> (r is Err <==> old(self).core_view().objects_view().len()
                == usize::MAX),
            old(self).alive() ==> match r {
                Ok(f) => f.valid(final(self).core_view()) && f.name_view() == name@ && f.id_view()
                    == id@ && final(self).core_view().retains() == old(self).core_view().retains()
                    + 1 && final(self).core_view().releases() == old(self).core_view().releases()
                    && final(self).alive(),
                Err(e) => e is NullPointer && crate::engine::unchanged(
                    old(self).core_view(),
                    final(self).core_view(),
                ) && final(self).alive(),
            },
    {
        if !self.is_alive() {
            return Err(ObsError::ThreadFailure);
        }
        let ghost pre = self.core_view();
        match self.dispatch(NativeRequest::CreateFilter { id: id.to_owned(), name: name.to_owned() }) {
            Ok(NativeResponse::Handle(h)) => {
                proof {
                    assert(self.core_view().objects_view().len() == pre.objects_view().len() + 1);
                    assert(h == pre.objects_view().len() + 1);
                    assert(self.core_view().objects_view()[h - 1]
                        == self.core_view().objects_view().last());
                }
                Ok(ObsFilterRef { handle: h, name: ObsString::new(name), id: ObsString::new(id) })
            },
            Ok(_) => Err(ObsError::NullPointer),
            Err(e) => Err(e),
        }
    }
}

} // verus!
