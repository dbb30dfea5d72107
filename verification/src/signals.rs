//! The signal bridge: native callbacks decoded into owned payloads and
//! fanned out to every subscription of the signal.
//!
//! A native callback may fire on any thread the engine chooses, so the
//! trampoline in the platform layer does only minimal decoding and hands
//! the payload to `trigger` here; consumers drain their own queues with
//! `next_event`.  Every subscription to a signal gets its own queue:
//! delivery is fan-out, not shared consumption.

use vstd::prelude::*;

use crate::utils::str_eq;
use crate::utils::NativeHandle;

verus! {

/// One decoded signal payload: nothing, a scalar, or another native
/// object, wrapped as a tagged handle rather than exposed raw.
#[derive(Clone, Copy, Debug, PartialEq, Eq, Structural)]
pub enum ObsSignalPayload {
    /// The signal carries no payload.
    NoData,
    /// A boolean payload.
    BoolData(bool),
    /// An integer payload.
    IntData(i64),
    /// A payload referencing another native object.
    ObjectData(NativeHandle),
}

/// One subscription: bound to one signal name on one native object, with
/// its own delivery queue.
pub struct SignalSubscription {
    pub(crate) object: usize,
    pub(crate) signal: String,
    pub(crate) queue: Vec<ObsSignalPayload>,
    pub(crate) open_flag: bool,
}

impl SignalSubscription {
    /// The native object the subscription listens on.
    pub closed spec fn object_spec(self) -> usize {
        self.object
    }

    /// The signal name.
    pub closed spec fn signal_view(self) -> Seq<char> {
        self.signal@
    }

    /// The undelivered payloads, oldest first.
    pub closed spec fn queue_view(self) -> Seq<ObsSignalPayload> {
        self.queue@
    }

    /// Whether the subscription still receives events.
    pub closed spec fn is_open(self) -> bool {
        self.open_flag
    }
}

/// Whether a subscription receives a signal fired on an object.
pub open spec fn receives(sub: SignalSubscription, object: usize, signal: Seq<char>) -> bool {
    sub.is_open() && sub.object_spec() == object && sub.signal_view() == signal
}

/// What one trigger does: every open subscription to the fired signal gets
/// the payload appended to its queue, each exactly once, and every other
/// subscription is untouched.
pub open spec fn trigger_rel(
    pre: Seq<SignalSubscription>,
    object: usize,
    signal: Seq<char>,
    payload: ObsSignalPayload,
    post: Seq<SignalSubscription>,
) -> bool {
    &&& post.len() == pre.len()
    &&& forall|i: int|
        0 <= i < pre.len() && receives(#[trigger] pre[i], object, signal) ==> post[i].queue_view()
            == pre[i].queue_view().push(payload) && post[i].object_spec() == pre[i].object_spec()
            && post[i].signal_view() == pre[i].signal_view() && post[i].is_open()
    &&& forall|i: int|
        0 <= i < pre.len() && !receives(#[trigger] pre[i], object, signal) ==> post[i] == pre[i]
}

/// Fan-out law: when one signal fires once, two distinct subscriptions to
/// it each receive exactly one copy of the payload.
pub proof fn lemma_signal_fanout(
    pre: Seq<SignalSubscription>,
    post: Seq<SignalSubscription>,
    object: usize,
    signal: Seq<char>,
    payload: ObsSignalPayload,
    i: int,
    j: int,
)
    requires
        trigger_rel(pre, object, signal, payload, post),
        0 <= i < pre.len(),
        0 <= j < pre.len(),
        i != j,
        receives(pre[i], object, signal),
        receives(pre[j], object, signal),
    ensures
        post[i].queue_view() == pre[i].queue_view().push(payload),
        post[j].queue_view() == pre[j].queue_view().push(payload),
        post[i].queue_view().len() == pre[i].queue_view().len() + 1,
        post[j].queue_view().len() == pre[j].queue_view().len() + 1,
{
}

/// The bridge: the set of live subscriptions.
pub struct ObsSignalBridge {
    subs: Vec<SignalSubscription>,
}

impl ObsSignalBridge {
    /// The subscriptions, by the ids `subscribe` handed out.
    pub closed spec fn subs_view(self) -> Seq<SignalSubscription> {
        self.subs@
    }

    /// A bridge with no subscriptions.
    pub fn new() -> (r: ObsSignalBridge)
        ensures
            r.subs_view() == Seq::<SignalSubscription>::empty(),
    {
        let r = ObsSignalBridge { subs: Vec::new() };
        proof {
            assert(r.subs@ =~= Seq::<SignalSubscription>::empty());
        }
        r
    }

    /// Subscribes to a signal on a native object: a fresh, open
    /// subscription with an empty queue.  The returned id names it.
    pub fn subscribe(&mut self, object: NativeHandle, signal: &str) -> (id: usize)
        ensures
            id == old(self).subs_view().len(),
            final(self).subs_view().len() == old(self).subs_view().len() + 1,
            forall|i: int|
                0 <= i < old(self).subs_view().len() ==> final(self).subs_view()[i] == #[trigger] old(
                    self,
                ).subs_view()[i],
            final(self).subs_view()[id as int].object_spec() == object.raw,
            final(self).subs_view()[id as int].signal_view() == signal@,
            final(self).subs_view()[id as int].queue_view() == Seq::<ObsSignalPayload>::empty(),
            final(self).subs_view()[id as int].is_open(),
    {
        let id = self.subs.len();
        let sub = SignalSubscription {
            object: object.raw,
            signal: signal.to_owned(),
            queue: Vec::new(),
            open_flag: true,
        };
        proof {
            assert(sub.queue@ =~= Seq::<ObsSignalPayload>::empty());
        }
        self.subs.push(sub);
        id
    }

    /// Fires a signal: the decoded payload is appended to the queue of
    /// every open subscription to that signal on that object.  The
    /// platform layer calls this from the native callback trampoline.
    pub fn trigger(&mut self, object: NativeHandle, signal: &str, payload: ObsSignalPayload)
        ensures
            trigger_rel(old(self).subs_view(), object.raw, signal@, payload, final(self).subs_view()),
    {
        let ghost pre = self.subs@;
        let total = self.subs.len();
        let mut i: usize = 0;
        while i < total
            invariant
                i <= total,
                total == self.subs@.len(),
                self.subs@.len() == pre.len(),
                forall|k: int|
                    i <= k < pre.len() ==> self.subs@[k] == #[trigger] pre[k],
                forall|k: int|
                    0 <= k < i && receives(#[trigger] pre[k], object.raw, signal@)
                        ==> self.subs@[k].queue_view() == pre[k].queue_view().push(payload)
                        && self.subs@[k].object_spec() == pre[k].object_spec()
                        && self.subs@[k].signal_view() == pre[k].signal_view()
                        && self.subs@[k].is_open(),
                forall|k: int|
                    0 <= k < i && !receives(#[trigger] pre[k], object.raw, signal@)
                        ==> self.subs@[k] == pre[k],
            decreases total - i,
        {
            let matches_signal = {
                let sub = &self.subs[i];
                sub.open_flag && sub.object == object.raw && str_eq(sub.signal.as_str(), signal)
            };
            if matches_signal {
                let sub = &mut self.subs[i];
                sub.queue.push(payload);
            }
            i = i + 1;
        }
    }

    /// Takes the oldest undelivered payload of a subscription, if any.
    pub fn next_event(&mut self, id: usize) -> (r: Option<ObsSignalPayload>)
        requires
            id < old(self).subs_view().len(),
        ensures
            final(self).subs_view().len() == old(self).subs_view().len(),
            forall|i: int|
                0 <= i < old(self).subs_view().len() && i != id ==> final(self).subs_view()[i]
                    == #[trigger] old(self).subs_view()[i],
            ({
                let q = old(self).subs_view()[id as int].queue_view();
                if q.len() == 0 {
                    r is None && final(self).subs_view()[id as int] == old(self).subs_view()[id as int]
                } else {
                    &&& r == Some(q[0])
                    &&& final(self).subs_view()[id as int].queue_view() == q.skip(1)
                    &&& final(self).subs_view()[id as int].object_spec() == old(
                        self,
                    ).subs_view()[id as int].object_spec()
                    &&& final(self).subs_view()[id as int].signal_view() == old(
                        self,
                    ).subs_view()[id as int].signal_view()
                    &&& final(self).subs_view()[id as int].is_open() == old(
                        self,
                    ).subs_view()[id as int].is_open()
                }
            }),
    {
        let ghost pre = self.subs@;
        let sub = &mut self.subs[id];
        if sub.queue.len() == 0 {
            proof {
                assert(self.subs@ =~= pre);
            }
            return None;
        }
        let front = sub.queue.remove(0);
        proof {
            assert(self.subs@[id as int].queue_view() =~= pre[id as int].queue_view().skip(1));
        }
        Some(front)
    }

    /// How many undelivered payloads a subscription holds.
    pub fn pending_count(&self, id: usize) -> (r: usize)
        requires
            id < self.subs_view().len(),
        ensures
            r == self.subs_view()[id as int].queue_view().len(),
    {
        self.subs[id].queue.len()
    }

    /// Closes a subscription: its trampoline is deregistered, so no later
    /// trigger reaches it; already-queued payloads stay readable.
    pub fn unsubscribe(&mut self, id: usize)
        requires
            id < old(self).subs_view().len(),
        ensures
            final(self).subs_view().len() == old(self).subs_view().len(),
            forall|i: int|
                0 <= i < old(self).subs_view().len() && i != id ==> final(self).subs_view()[i]
                    == #[trigger] old(self).subs_view()[i],
            !final(self).subs_view()[id as int].is_open(),
            final(self).subs_view()[id as int].queue_view() == old(
                self,
            ).subs_view()[id as int].queue_view(),
            final(self).subs_view()[id as int].object_spec() == old(
                self,
            ).subs_view()[id as int].object_spec(),
            final(self).subs_view()[id as int].signal_view() == old(
                self,
            ).subs_view()[id as int].signal_view(),
    {
        let sub = &mut self.subs[id];
        sub.open_flag = false;
    }
}

} // verus!
