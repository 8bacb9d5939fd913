//! The consumer-side registry of displayed notifications and its expiry
//! scheduler.
//!
//! Each presentation consumer owns one registry.  A record received from
//! the bus is displayed and keyed by its id; a record whose `replaces_id`
//! names a live entry supersedes it.  A periodic tick sweeps the registry
//! and withdraws every entry whose lifetime has elapsed; explicit closes
//! and user actions withdraw entries directly.  Every withdrawal yields
//! the signal the protocol server must emit, with the proper reason code.

use vstd::prelude::*;

use crate::notification::{
    Expiry, Notification, NotificationMsg, NotificationMsgRep, NotificationRep,
};
use crate::receiver::{OutSignal, OutSignalRep, REASON_DISMISSED, REASON_EXPIRED};

verus! {

/// The expiry scheduler's tick cadence, in milliseconds.
pub const TICK_MS: u64 = 100;

/// Milliseconds elapsed between two monotonic readings, saturating at
/// zero if time appears to step backwards.
pub open spec fn spec_elapsed(now: u64, start: u64) -> int {
    if now >= start {
        now - start
    } else {
        0
    }
}

/// Whether an entry has outlived its visible lifetime at instant `now`.
/// Entries that never expire are never auto-evicted.
pub open spec fn expired(n: NotificationRep, now: u64) -> bool {
    match n.expire_timeout {
        Expiry::Never => false,
        Expiry::Milliseconds(ms) => spec_elapsed(now, n.start_time) > ms,
    }
}

/// Whether some entry carries the id.
pub open spec fn has_id(s: Seq<NotificationRep>, id: u32) -> bool {
    exists|i: int| 0 <= i < s.len() && s[i].id == id
}

/// An entry that survives the arrival of record `n`: neither keyed by
/// `n`'s own id nor named by its non-zero `replaces_id`.
pub open spec fn retained_after_insert(e: NotificationRep, n: NotificationRep) -> bool {
    e.id != n.id && (n.replaces_id == 0 || e.id != n.replaces_id)
}

/// The entries that survive the arrival of record `n`.
pub open spec fn after_filter(s: Seq<NotificationRep>, n: NotificationRep) -> Seq<
    NotificationRep,
> {
    s.filter(|e: NotificationRep| retained_after_insert(e, n))
}

/// The registry after record `n` arrives: the entries it supersedes are
/// gone and `n` itself is displayed.
pub open spec fn after_insert(s: Seq<NotificationRep>, n: NotificationRep) -> Seq<
    NotificationRep,
> {
    after_filter(s, n).push(n)
}

/// The entries still displayed after a sweep at instant `now`.
pub open spec fn swept(s: Seq<NotificationRep>, now: u64) -> Seq<NotificationRep> {
    s.filter(|e: NotificationRep| !expired(e, now))
}

/// The signals a sweep at instant `now` emits: one expiry notice per
/// evicted entry, in registry order.
pub open spec fn swept_signals(s: Seq<NotificationRep>, now: u64) -> Seq<OutSignalRep> {
    s.filter(|e: NotificationRep| expired(e, now)).map_values(
        |e: NotificationRep| OutSignalRep::NotificationClosed(e.id, REASON_EXPIRED),
    )
}

/// The entries left once the one keyed by `id` (if any) is withdrawn.
pub open spec fn without_id(s: Seq<NotificationRep>, id: u32) -> Seq<NotificationRep> {
    s.filter(|e: NotificationRep| e.id != id)
}

/// Filtering a registry keeps every entry a member of the original and
/// preserves the distinctness of ids.
proof fn lemma_filter_keeps_distinct_ids(
    s: Seq<NotificationRep>,
    pred: spec_fn(NotificationRep) -> bool,
)
    requires
        forall|i: int, j: int| 0 <= i < j < s.len() ==> s[i].id != s[j].id,
    ensures
        forall|i: int|
            0 <= i < s.filter(pred).len() ==> exists|k: int|
                0 <= k < s.len() && #[trigger] s.filter(pred)[i] == s[k],
        forall|i: int, j: int|
            0 <= i < j < s.filter(pred).len() ==> s.filter(pred)[i].id != s.filter(pred)[j].id,
    decreases s.len(),
{
    reveal(Seq::filter);
    if s.len() == 0 {
    } else {
        let d = s.drop_last();
        assert(forall|i: int, j: int| 0 <= i < j < d.len() ==> d[i].id != d[j].id);
        lemma_filter_keeps_distinct_ids(d, pred);
        let fd = d.filter(pred);
        assert forall|i: int| 0 <= i < s.filter(pred).len() implies exists|k: int|
            0 <= k < s.len() && #[trigger] s.filter(pred)[i] == s[k] by {
            if pred(s.last()) {
                if i < fd.len() {
                    let k = choose|k: int| 0 <= k < d.len() && fd[i] == d[k];
                    assert(s.filter(pred)[i] == s[k]);
                } else {
                    assert(s.filter(pred)[i] == s[s.len() - 1]);
                }
            } else {
                let k = choose|k: int| 0 <= k < d.len() && fd[i] == d[k];
                assert(s.filter(pred)[i] == s[k]);
            }
        }
        assert forall|i: int, j: int|
            0 <= i < j < s.filter(pred).len() implies s.filter(pred)[i].id != s.filter(
            pred,
        )[j].id by {
            if pred(s.last()) && j == s.filter(pred).len() - 1 {
                let k = choose|k: int| 0 <= k < d.len() && fd[i] == d[k];
                assert(s[k].id != s[s.len() - 1].id);
            }
        }
    }
}

/// One presentation consumer's set of currently displayed notifications,
/// keyed by id.
pub struct Registry {
    entries: Vec<Notification>,
}

impl View for Registry {
    type V = Seq<NotificationRep>;

    closed spec fn view(&self) -> Seq<NotificationRep> {
        self.entries.deep_view()
    }
}

impl Registry {
    /// Displayed entries carry pairwise distinct ids and well-formed
    /// tables.
    pub open spec fn wf(&self) -> bool {
        &&& forall|i: int, j: int| 0 <= i < j < self@.len() ==> self@[i].id != self@[j].id
        &&& forall|i: int| 0 <= i < self@.len() ==> (#[trigger] self@[i]).wf()
    }

    /// An empty registry: nothing is displayed.
    pub fn new() -> (r: Registry)
        ensures
            r.wf(),
            r@ == Seq::<NotificationRep>::empty(),
    {
        let r = Registry { entries: Vec::new() };
        proof {
            assert(r@ =~= Seq::<NotificationRep>::empty());
        }
        r
    }

    /// How many notifications are displayed.
    pub fn len(&self) -> (r: usize)
        ensures
            r == self@.len(),
    {
        self.entries.len()
    }

    /// Whether the notification with this id is displayed.
    pub fn contains_id(&self, id: u32) -> (r: bool)
        ensures
            r == has_id(self@, id),
    {
        let mut i: usize = 0;
        while i < self.entries.len()
            invariant
                i <= self.entries.len(),
                self@.len() == self.entries.len(),
                forall|k: int| 0 <= k < i ==> self@[k].id != id,
            decreases self.entries.len() - i,
        {
            if self.entries[i].id == id {
                proof {
                    assert(self@[i as int].id == id);
                }
                return true;
            }
            i += 1;
        }
        false
    }

    /// Displays record `n`: the entry with the same id, and the live
    /// entry a non-zero `replaces_id` names, are superseded.
    pub fn insert(&mut self, n: Notification)
        requires
            old(self).wf(),
            n@.wf(),
        ensures
            final(self).wf(),
            final(self)@ == after_insert(old(self)@, n@),
    {
        let ghost s0 = self@;
        let ghost target = n@;
        let mut kept: Vec<Notification> = Vec::new();
        let mut i: usize = 0;
        proof {
            reveal(Seq::filter);
            assert(kept.deep_view() =~= after_filter(s0.take(0), target));
        }
        while i < self.entries.len()
            invariant
                i <= self.entries.len(),
                self@ == s0,
                target == n@,
                self@.len() == self.entries.len(),
                kept.deep_view() == after_filter(s0.take(i as int), target),
            decreases self.entries.len() - i,
        {
            let e = &self.entries[i];
            let ghost prev = kept.deep_view();
            proof {
                reveal(Seq::filter);
                assert(s0.take(i as int + 1).drop_last() =~= s0.take(i as int));
                assert(s0.take(i as int + 1).last() == s0[i as int]);
            }
            if e.id != n.id && (n.replaces_id == 0 || e.id != n.replaces_id) {
                kept.push(e.clone());
                proof {
                    assert(retained_after_insert(s0[i as int], target));
                    assert(kept.deep_view() =~= prev.push(s0[i as int]));
                }
            } else {
                proof {
                    assert(!retained_after_insert(s0[i as int], target));
                }
            }
            i += 1;
        }
        proof {
            assert(s0.take(s0.len() as int) =~= s0);
        }
        kept.push(n);
        self.entries = kept;
        proof {
            broadcast use vstd::seq_lib::group_filter_ensures;

            assert(self@ =~= after_filter(s0, target).push(target));
            lemma_filter_keeps_distinct_ids(
                s0,
                |e: NotificationRep| retained_after_insert(e, target),
            );
        }
    }

    /// Displays the record a bus message carries (see [`Registry::insert`]).
    pub fn handle_msg(&mut self, msg: NotificationMsg)
        requires
            old(self).wf(),
            msg@ matches NotificationMsgRep::Notification(n) ==> n.wf(),
        ensures
            final(self).wf(),
            msg@ matches NotificationMsgRep::Notification(n) ==> final(self)@ == after_insert(
                old(self)@,
                n,
            ),
    {
        match msg {
            NotificationMsg::Notification(n) => self.insert(n),
        }
    }

    /// One scheduler tick at instant `now`: evicts every entry whose
    /// lifetime has elapsed, and returns one expiry notice per evicted
    /// entry, in registry order.  Entries that never expire stay.
    pub fn sweep(&mut self, now: u64) -> (r: Vec<OutSignal>)
        requires
            old(self).wf(),
        ensures
            final(self).wf(),
            final(self)@ == swept(old(self)@, now),
            r.deep_view() == swept_signals(old(self)@, now),
    {
        let ghost s0 = self@;
        let mut kept: Vec<Notification> = Vec::new();
        let mut signals: Vec<OutSignal> = Vec::new();
        let mut i: usize = 0;
        proof {
            reveal(Seq::filter);
            assert(kept.deep_view() =~= swept(s0.take(0), now));
            assert(signals.deep_view() =~= swept_signals(s0.take(0), now));
        }
        while i < self.entries.len()
            invariant
                i <= self.entries.len(),
                self@ == s0,
                self@.len() == self.entries.len(),
                kept.deep_view() == swept(s0.take(i as int), now),
                signals.deep_view() == swept_signals(s0.take(i as int), now),
            decreases self.entries.len() - i,
        {
            let e = &self.entries[i];
            let ghost prev_kept = kept.deep_view();
            let ghost prev_signals = signals.deep_view();
            proof {
                reveal(Seq::filter);
                assert(s0.take(i as int + 1).drop_last() =~= s0.take(i as int));
                assert(s0.take(i as int + 1).last() == s0[i as int]);
            }
            let elapsed: u64 = if now >= e.start_time {
                now - e.start_time
            } else {
                0
            };
            let is_expired: bool = match e.expire_timeout {
                Expiry::Never => false,
                Expiry::Milliseconds(ms) => elapsed > ms,
            };
            proof {
                assert(is_expired == expired(s0[i as int], now));
            }
            if is_expired {
                signals.push(OutSignal::NotificationClosed(e.id, REASON_EXPIRED));
                proof {
                    reveal(Seq::filter);
                    assert(signals.deep_view() =~= prev_signals.push(
                        OutSignalRep::NotificationClosed(s0[i as int].id, REASON_EXPIRED),
                    ));
                    assert(s0.take(i as int + 1).filter(|e: NotificationRep| expired(e, now))
                        =~= s0.take(i as int).filter(|e: NotificationRep| expired(e, now)).push(
                        s0[i as int],
                    ));
                    assert(signals.deep_view() =~= swept_signals(s0.take(i as int + 1), now));
                    assert(kept.deep_view() =~= swept(s0.take(i as int + 1), now));
                }
            } else {
                kept.push(e.clone());
                proof {
                    reveal(Seq::filter);
                    assert(kept.deep_view() =~= swept(s0.take(i as int + 1), now));
                    assert(signals.deep_view() =~= swept_signals(s0.take(i as int + 1), now));
                }
            }
            i += 1;
        }
        proof {
            assert(s0.take(s0.len() as int) =~= s0);
        }
        self.entries = kept;
        proof {
            lemma_filter_keeps_distinct_ids(s0, |e: NotificationRep| !expired(e, now));
        }
        signals
    }

    /// Withdraws the entry keyed by `id`, if it is displayed, and yields
    /// the closure signal to emit, with the given reason code; absent
    /// entries are left alone and no signal is owed.
    pub fn close(&mut self, id: u32, reason: u32) -> (r: Option<OutSignal>)
        requires
            old(self).wf(),
        ensures
            final(self).wf(),
            final(self)@ == without_id(old(self)@, id),
            r is Some <==> has_id(old(self)@, id),
            r matches Some(s) ==> s == OutSignal::NotificationClosed(id, reason),
    {
        let ghost s0 = self@;
        let mut kept: Vec<Notification> = Vec::new();
        let mut found = false;
        let mut i: usize = 0;
        proof {
            reveal(Seq::filter);
            assert(kept.deep_view() =~= without_id(s0.take(0), id));
        }
        while i < self.entries.len()
            invariant
                i <= self.entries.len(),
                self@ == s0,
                self@.len() == self.entries.len(),
                kept.deep_view() == without_id(s0.take(i as int), id),
                found == has_id(s0.take(i as int), id),
            decreases self.entries.len() - i,
        {
            let e = &self.entries[i];
            let ghost prev = kept.deep_view();
            proof {
                reveal(Seq::filter);
                assert(s0.take(i as int + 1).drop_last() =~= s0.take(i as int));
                assert(s0.take(i as int + 1).last() == s0[i as int]);
            }
            if e.id != id {
                kept.push(e.clone());
                proof {
                    assert(kept.deep_view() =~= prev.push(s0[i as int]));
                    if has_id(s0.take(i as int + 1), id) {
                        let k = choose|k: int|
                            0 <= k < s0.take(i as int + 1).len() && (#[trigger] s0.take(
                                i as int + 1,
                            )[k]).id == id;
                        assert(s0.take(i as int)[k].id == id);
                    }
                }
            } else {
                found = true;
                proof {
                    assert(s0.take(i as int + 1)[i as int].id == id);
                }
            }
            i += 1;
        }
        proof {
            assert(s0.take(s0.len() as int) =~= s0);
        }
        self.entries = kept;
        proof {
            lemma_filter_keeps_distinct_ids(s0, |e: NotificationRep| e.id != id);
        }
        if found {
            Some(OutSignal::NotificationClosed(id, reason))
        } else {
            None
        }
    }

    /// Handles a user's action invocation reported back by the
    /// presentation layer: if the notification is displayed, it is
    /// withdrawn and the server owes two signals — the action invocation
    /// and the closure with the dismissed-by-user reason; an unknown id
    /// changes nothing and owes nothing.
    pub fn invoke_action(&mut self, id: u32, action_key: String) -> (r: Vec<OutSignal>)
        requires
            old(self).wf(),
        ensures
            final(self).wf(),
            final(self)@ == without_id(old(self)@, id),
            has_id(old(self)@, id) ==> r.deep_view() == seq![
                OutSignalRep::ActionInvoked(id, action_key@),
                OutSignalRep::NotificationClosed(id, REASON_DISMISSED),
            ],
            !has_id(old(self)@, id) ==> r.deep_view() == Seq::<OutSignalRep>::empty(),
    {
        let closed = self.close(id, REASON_DISMISSED);
        let mut out: Vec<OutSignal> = Vec::new();
        match closed {
            Some(sig) => {
                out.push(OutSignal::ActionInvoked(id, action_key));
                out.push(sig);
                proof {
                    assert(out.deep_view() =~= seq![
                        OutSignalRep::ActionInvoked(id, action_key@),
                        OutSignalRep::NotificationClosed(id, REASON_DISMISSED),
                    ]);
                }
            },
            None => {
                proof {
                    assert(out.deep_view() =~= Seq::<OutSignalRep>::empty());
                }
            },
        }
        out
    }

    /// The ids of all displayed entries, in registry order.
    pub fn ids(&self) -> (r: Vec<u32>)
        ensures
            r@.len() == self@.len(),
            forall|i: int| 0 <= i < r@.len() ==> r@[i] == self@[i].id,
    {
        let mut r: Vec<u32> = Vec::new();
        let mut i: usize = 0;
        while i < self.entries.len()
            invariant
                i <= self.entries.len(),
                self@.len() == self.entries.len(),
                r@.len() == i,
                forall|k: int| 0 <= k < i ==> r@[k] == self@[k].id,
            decreases self.entries.len() - i,
        {
            r.push(self.entries[i].id);
            i += 1;
        }
        r
    }

    /// The displayed entry keyed by `id`, if any.
    pub fn get(&self, id: u32) -> (r: Option<&Notification>)
        ensures
            r is Some <==> has_id(self@, id),
            r matches Some(n) ==> n@.id == id && self@.contains(n@),
    {
        let mut i: usize = 0;
        while i < self.entries.len()
            invariant
                i <= self.entries.len(),
                self@.len() == self.entries.len(),
                forall|k: int| 0 <= k < i ==> self@[k].id != id,
            decreases self.entries.len() - i,
        {
            if self.entries[i].id == id {
                proof {
                    assert(self@[i as int].id == id);
                }
                return Some(&self.entries[i]);
            }
            i += 1;
        }
        None
    }
}

/// The timer decision driving the expiry scheduler: a tick is due once
/// `period` milliseconds have elapsed since the last tick.
pub fn tick_due(last_tick: u64, now: u64, period: u64) -> (r: bool)
    ensures
        r == (spec_elapsed(now, last_tick) >= period),
{
    let elapsed: u64 = if now >= last_tick {
        now - last_tick
    } else {
        0
    };
    elapsed >= period
}

} // verus!
