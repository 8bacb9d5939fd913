//! Canonical notification records and the normalization rules that build
//! them out of raw request arguments.

use vstd::prelude::*;

use crate::entries::{
    lemma_map_of_entries_dom, lemma_map_of_entries_push, lemma_map_of_entries_update,
    lemma_map_of_entries_value, map_of_entries, unique_keys,
};
use crate::hints::{
    all_hints_convertible, convert_hints, converted_entries, HintValue, HintValueRep,
    ProtocolError, WireValue, WireValueRep,
};

verus! {

/// Default visible lifetime, in milliseconds, for requests that ask for the
/// server default.
pub const DEFAULT_TIMEOUT_MS: u64 = 5000;

/// When a notification must be withdrawn: never on its own, or once the
/// given number of milliseconds has elapsed since it was posted.
#[derive(Clone, Copy, Debug, PartialEq, Eq, Structural)]
pub enum Expiry {
    Never,
    Milliseconds(u64),
}

/// The normalization table for the wire-level `expire_timeout` argument:
/// `-1` asks for the server default, `0` means "never expire", a positive
/// value is a lifetime in milliseconds, and anything below `-1` is clamped
/// to the server default.
pub open spec fn spec_normalize_expiry(t: int) -> Expiry {
    if t == 0 {
        Expiry::Never
    } else if t > 0 {
        Expiry::Milliseconds(t as u64)
    } else {
        Expiry::Milliseconds(DEFAULT_TIMEOUT_MS)
    }
}

/// Turns the caller-supplied `expire_timeout` into an [`Expiry`] according
/// to the normalization table.
pub fn normalize_expiry(expire_timeout: i32) -> (e: Expiry)
    ensures
        e == spec_normalize_expiry(expire_timeout as int),
{
    if expire_timeout == 0 {
        Expiry::Never
    } else if expire_timeout > 0 {
        Expiry::Milliseconds(expire_timeout as u64)
    } else {
        Expiry::Milliseconds(DEFAULT_TIMEOUT_MS)
    }
}

/// The raw `actions` argument read as (key, label) pairs: tokens are
/// consumed two at a time, and an unpaired trailing token is dropped.
pub open spec fn action_pairs(toks: Seq<Seq<char>>) -> Seq<(Seq<char>, Seq<char>)>
    decreases toks.len(),
{
    if toks.len() < 2 {
        Seq::empty()
    } else {
        seq![(toks[0], toks[1])] + action_pairs(toks.skip(2))
    }
}

/// Extending an even-length token prefix by two tokens appends one pair.
pub proof fn lemma_action_pairs_step(toks: Seq<Seq<char>>, i: int)
    requires
        0 <= i,
        i % 2 == 0,
        i + 1 < toks.len(),
    ensures
        action_pairs(toks.take(i + 2)) == action_pairs(toks.take(i)).push((toks[i], toks[i + 1])),
    decreases i,
{
    if i == 0 {
        assert(action_pairs(toks.take(0)) =~= Seq::empty());
        let a = toks.take(2);
        assert(a.len() == 2);
        assert(a.skip(2) =~= Seq::<Seq<char>>::empty());
        assert(action_pairs(a.skip(2)) =~= Seq::<(Seq<char>, Seq<char>)>::empty());
        assert(action_pairs(a) == seq![(a[0], a[1])] + action_pairs(a.skip(2)));
        assert(a[0] == toks[0]);
        assert(a[1] == toks[1]);
        assert(action_pairs(a) =~= Seq::empty().push((toks[0], toks[1])));
    } else {
        let a = toks.take(i + 2);
        let b = toks.take(i);
        assert(a.skip(2) =~= toks.skip(2).take(i));
        assert(b.skip(2) =~= toks.skip(2).take(i - 2));
        lemma_action_pairs_step(toks.skip(2), i - 2);
        assert(toks.skip(2)[i - 2] == toks[i]);
        assert(toks.skip(2)[i - 1] == toks[i + 1]);
        assert(action_pairs(a) =~= action_pairs(b).push((toks[i], toks[i + 1])));
    }
}

/// A trailing unpaired token contributes nothing.
pub proof fn lemma_action_pairs_odd(toks: Seq<Seq<char>>)
    requires
        toks.len() % 2 == 1,
    ensures
        action_pairs(toks.take(toks.len() - 1)) == action_pairs(toks),
    decreases toks.len(),
{
    if toks.len() == 1 {
        assert(action_pairs(toks.take(0)) =~= Seq::empty());
    } else {
        let n = toks.len() as int;
        assert(toks.take(n - 1).skip(2) =~= toks.skip(2).take(n - 3));
        lemma_action_pairs_odd(toks.skip(2));
        assert(toks.skip(2).len() - 1 == n - 3);
        assert(action_pairs(toks.take(n - 1)) =~= action_pairs(toks));
    }
}

/// Groups the raw `actions` token list into a table of (key, label)
/// entries.  Tokens are consumed pairwise; an unpaired trailing token is
/// dropped; a later pair with an already-seen key overrides the earlier
/// label, so keys in the result are unique.  The order of the entries is
/// not part of the contract: the table's meaning is the map it denotes.
pub fn group_actions(actions: &Vec<String>) -> (r: Vec<(String, String)>)
    ensures
        unique_keys(r.deep_view()),
        map_of_entries(r.deep_view()) == map_of_entries(action_pairs(actions.deep_view())),
{
    let ghost toks = actions.deep_view();
    let mut out: Vec<(String, String)> = Vec::new();
    let mut i: usize = 0;
    proof {
        assert(action_pairs(toks.take(0)) =~= Seq::empty());
        assert(out.deep_view() =~= Seq::<(Seq<char>, Seq<char>)>::empty());
    }
    while i + 1 < actions.len()
        invariant
            i % 2 == 0,
            i <= actions.len(),
            toks == actions.deep_view(),
            toks.len() == actions.len(),
            unique_keys(out.deep_view()),
            map_of_entries(out.deep_view()) == map_of_entries(action_pairs(toks.take(i as int))),
        decreases actions.len() - i,
    {
        let key = actions[i].clone();
        let val = actions[i + 1].clone();
        proof {
            lemma_action_pairs_step(toks, i as int);
            lemma_map_of_entries_push(action_pairs(toks.take(i as int)), toks[i as int], toks[i as int + 1]);
        }
        let ghost old_out = out.deep_view();
        let mut j: usize = 0;
        while j < out.len() && !(out[j].0 == key)
            invariant
                j <= out.len(),
                out.deep_view() == old_out,
                key@ == toks[i as int],
                toks.len() == actions.len(),
                i + 1 < actions.len(),
                forall|jj: int| 0 <= jj < j ==> out.deep_view()[jj].0 != key@,
            decreases out.len() - j,
        {
            j += 1;
        }
        if j < out.len() {
            proof {
                assert(old_out[j as int].0 == key@);
                lemma_map_of_entries_update(old_out, j as int, key@, val@);
            }
            out.set(j, (key, val));
            proof {
                assert(out.deep_view() =~= old_out.update(j as int, (key@, val@)));
            }
        } else {
            out.push((key, val));
            proof {
                assert(out.deep_view() =~= old_out.push((key@, val@)));
                lemma_map_of_entries_push(old_out, key@, val@);
            }
        }
        i += 2;
    }
    proof {
        if toks.len() % 2 == 1 {
            assert(i == toks.len() - 1);
            lemma_action_pairs_odd(toks);
        } else {
            assert(i == toks.len());
            assert(toks.take(i as int) =~= toks);
        }
    }
    out
}

/// Canonical record for one posted notification.  The id is assigned by
/// the server, never by the caller; `replaces_id` is the caller's hint
/// that this record supersedes an earlier one, with `0` meaning "new";
/// `start_time` is a monotonic reference in milliseconds used only for
/// expiry arithmetic.
#[derive(Debug)]
pub struct Notification {
    pub id: u32,
    pub app_name: String,
    pub replaces_id: u32,
    pub app_icon: String,
    pub summary: String,
    pub body: String,
    pub actions: Vec<(String, String)>,
    pub hints: Vec<(String, HintValue)>,
    pub start_time: u64,
    pub expire_timeout: Expiry,
}

/// Abstraction of a [`Notification`].
#[verifier::ext_equal]
pub struct NotificationRep {
    pub id: u32,
    pub app_name: Seq<char>,
    pub replaces_id: u32,
    pub app_icon: Seq<char>,
    pub summary: Seq<char>,
    pub body: Seq<char>,
    pub actions: Seq<(Seq<char>, Seq<char>)>,
    pub hints: Seq<(Seq<char>, HintValueRep)>,
    pub start_time: u64,
    pub expire_timeout: Expiry,
}

impl NotificationRep {
    /// Both tables carry each key at most once.
    pub open spec fn wf(self) -> bool {
        unique_keys(self.actions) && unique_keys(self.hints)
    }
}

impl View for Notification {
    type V = NotificationRep;

    open spec fn view(&self) -> NotificationRep {
        NotificationRep {
            id: self.id,
            app_name: self.app_name@,
            replaces_id: self.replaces_id,
            app_icon: self.app_icon@,
            summary: self.summary@,
            body: self.body@,
            actions: self.actions.deep_view(),
            hints: self.hints.deep_view(),
            start_time: self.start_time,
            expire_timeout: self.expire_timeout,
        }
    }
}

impl DeepView for Notification {
    type V = NotificationRep;

    open spec fn deep_view(&self) -> NotificationRep {
        self.view()
    }
}

/// Element-wise copy of an action table.
fn clone_action_table(v: &Vec<(String, String)>) -> (r: Vec<(String, String)>)
    ensures
        r.deep_view() == v.deep_view(),
{
    let mut r: Vec<(String, String)> = Vec::new();
    let mut i: usize = 0;
    while i < v.len()
        invariant
            i <= v.len(),
            r@.len() == i,
            forall|k: int| 0 <= k < i ==> r@[k].0@ == v@[k].0@ && r@[k].1@ == v@[k].1@,
        decreases v.len() - i,
    {
        let key = v[i].0.clone();
        let label = v[i].1.clone();
        r.push((key, label));
        i += 1;
    }
    proof {
        assert(r.deep_view() =~= v.deep_view());
    }
    r
}

/// Element-wise copy of a hint table.
fn clone_hint_table(v: &Vec<(String, HintValue)>) -> (r: Vec<(String, HintValue)>)
    ensures
        r.deep_view() == v.deep_view(),
{
    let mut r: Vec<(String, HintValue)> = Vec::new();
    let mut i: usize = 0;
    while i < v.len()
        invariant
            i <= v.len(),
            r@.len() == i,
            forall|k: int| 0 <= k < i ==> r@[k].0@ == v@[k].0@ && r@[k].1@ == v@[k].1@,
        decreases v.len() - i,
    {
        let key = v[i].0.clone();
        let value = v[i].1.clone();
        r.push((key, value));
        i += 1;
    }
    proof {
        assert(r.deep_view() =~= v.deep_view());
    }
    r
}

impl Clone for Notification {
    /// The copy abstracts to the same record.
    fn clone(&self) -> (r: Self)
        ensures
            r@ == self@,
    {
        let r = Notification {
            id: self.id,
            app_name: self.app_name.clone(),
            replaces_id: self.replaces_id,
            app_icon: self.app_icon.clone(),
            summary: self.summary.clone(),
            body: self.body.clone(),
            actions: clone_action_table(&self.actions),
            hints: clone_hint_table(&self.hints),
            start_time: self.start_time,
            expire_timeout: self.expire_timeout,
        };
        proof {
            assert(r@ =~= self@);
        }
        r
    }
}

impl Notification {
    /// Looks a hint up by key.  The record's hint keys are unique, so the
    /// answer is the binding of the denoted hint map.
    pub fn hint(&self, key: &String) -> (r: Option<&HintValue>)
        requires
            unique_keys(self@.hints),
        ensures
            match r {
                Some(h) => map_of_entries(self@.hints).dom().contains(key@) && h@
                    == map_of_entries(self@.hints)[key@],
                None => !map_of_entries(self@.hints).dom().contains(key@),
            },
    {
        let mut i: usize = 0;
        while i < self.hints.len()
            invariant
                i <= self.hints.len(),
                unique_keys(self@.hints),
                self@.hints.len() == self.hints.len(),
                forall|k: int| 0 <= k < i ==> self@.hints[k].0 != key@,
            decreases self.hints.len() - i,
        {
            if self.hints[i].0 == *key {
                proof {
                    lemma_map_of_entries_value(self@.hints, i as int, key@);
                }
                return Some(&self.hints[i].1);
            }
            i += 1;
        }
        proof {
            lemma_map_of_entries_dom(self@.hints, key@);
        }
        None
    }
}

/// The one message kind carried across the bus today; a tagged variant so
/// that further kinds can be added without breaking subscribers.
#[derive(Debug)]
pub enum NotificationMsg {
    Notification(Notification),
}

/// Abstraction of a [`NotificationMsg`].
pub enum NotificationMsgRep {
    Notification(NotificationRep),
}

impl View for NotificationMsg {
    type V = NotificationMsgRep;

    open spec fn view(&self) -> NotificationMsgRep {
        match self {
            NotificationMsg::Notification(n) => NotificationMsgRep::Notification(n@),
        }
    }
}

impl DeepView for NotificationMsg {
    type V = NotificationMsgRep;

    open spec fn deep_view(&self) -> NotificationMsgRep {
        self.view()
    }
}

impl Clone for NotificationMsg {
    /// The copy abstracts to the same message.
    fn clone(&self) -> (r: Self)
        ensures
            r@ == self@,
    {
        match self {
            NotificationMsg::Notification(n) => NotificationMsg::Notification(n.clone()),
        }
    }
}

/// The id carried by a bus message.
pub open spec fn msg_id(m: NotificationMsgRep) -> u32 {
    match m {
        NotificationMsgRep::Notification(n) => n.id,
    }
}

/// Whether the record a bus message carries is well-formed.
pub open spec fn msg_wf(m: NotificationMsgRep) -> bool {
    match m {
        NotificationMsgRep::Notification(n) => n.wf(),
    }
}

/// What the normalizer promises of an accepted request: the record holds
/// the caller's text fields unchanged, the grouped action table, the
/// converted hint table, the normalized expiry, and the given id and
/// creation time.
pub open spec fn normalized_rep(
    n: NotificationRep,
    id: u32,
    app_name: Seq<char>,
    replaces_id: u32,
    app_icon: Seq<char>,
    summary: Seq<char>,
    body: Seq<char>,
    actions: Seq<Seq<char>>,
    hints: Seq<(Seq<char>, WireValueRep)>,
    expire_timeout: int,
    now: u64,
) -> bool {
    &&& n.id == id
    &&& n.app_name == app_name
    &&& n.replaces_id == replaces_id
    &&& n.app_icon == app_icon
    &&& n.summary == summary
    &&& n.body == body
    &&& n.wf()
    &&& map_of_entries(n.actions) == map_of_entries(action_pairs(actions))
    &&& map_of_entries(n.hints) == map_of_entries(converted_entries(hints))
    &&& n.start_time == now
    &&& n.expire_timeout == spec_normalize_expiry(expire_timeout)
}

/// The normalizer: validates and converts raw call arguments into the
/// canonical record.  Deterministic and side-effect free; the id and the
/// creation time are supplied by the caller.  The call fails, and no
/// record is built, exactly when some hint value cannot be converted.
pub fn normalize(
    id: u32,
    app_name: String,
    replaces_id: u32,
    app_icon: String,
    summary: String,
    body: String,
    actions: &Vec<String>,
    hints: &Vec<(String, WireValue)>,
    expire_timeout: i32,
    now: u64,
) -> (r: Result<Notification, ProtocolError>)
    ensures
        r is Ok <==> all_hints_convertible(hints.deep_view()),
        r matches Ok(n) ==> normalized_rep(
            n@,
            id,
            app_name@,
            replaces_id,
            app_icon@,
            summary@,
            body@,
            actions.deep_view(),
            hints.deep_view(),
            expire_timeout as int,
            now,
        ),
        r matches Err(e) ==> e == ProtocolError::HintNotConvertible,
{
    let owned_hints = match convert_hints(hints) {
        Ok(v) => v,
        Err(e) => {
            return Err(e);
        },
    };
    let grouped = group_actions(actions);
    Ok(
        Notification {
            id,
            app_name,
            replaces_id,
            app_icon,
            summary,
            body,
            actions: grouped,
            hints: owned_hints,
            start_time: now,
            expire_timeout: normalize_expiry(expire_timeout),
        },
    )
}

} // verus!
