//! The correlation router: a table of in-flight call identifiers to
//! single-use reply slots. It is the rendezvous point between the
//! HTTP-serving context and the event-driven peer: a task registers a call
//! identifier and later collects the reply that the peer resolved under
//! that identifier. Resolution is idempotent and silently tolerant of
//! spurious or late deliveries, because the peer cannot know whether the
//! original requester is still waiting.

use vstd::prelude::*;

use crate::utils::{gen_call_id, seq_starts_with};

verus! {

/// A reply slot is single-use: it waits, then holds exactly one payload,
/// which its owner collects exactly once.
pub enum SlotState {
    Waiting,
    Delivered(String),
}

/// The mathematical shadow of a slot.
pub enum Slot {
    Waiting,
    Delivered(Seq<char>),
}

impl View for SlotState {
    type V = Slot;

    open spec fn view(&self) -> Slot {
        match self {
            SlotState::Waiting => Slot::Waiting,
            SlotState::Delivered(p) => Slot::Delivered(p@),
        }
    }
}

/// The table as a map from call identifier to slot, built from the entry
/// list; a later entry for the same identifier shadows an earlier one.
pub closed spec fn entries_map(s: Seq<(String, SlotState)>) -> Map<Seq<char>, Slot>
    decreases s.len(),
{
    if s.len() == 0 {
        Map::empty()
    } else {
        entries_map(s.drop_last()).insert(s.last().0@, s.last().1@)
    }
}

/// The concurrent table of pending calls. Callers serialize access
/// externally (one mutual-exclusion section per read-modify-write step);
/// each operation here is one such step.
pub struct CorrelationRouter {
    entries: Vec<(String, SlotState)>,
}

impl View for CorrelationRouter {
    type V = Map<Seq<char>, Slot>;

    closed spec fn view(&self) -> Map<Seq<char>, Slot> {
        entries_map(self.entries@)
    }
}

/// What `register` does to the table.
pub open spec fn spec_register(m: Map<Seq<char>, Slot>, id: Seq<char>) -> Map<Seq<char>, Slot> {
    m.insert(id, Slot::Waiting)
}

/// What `resolve` returns and does to the table: only a waiting slot
/// accepts a payload, and it accepts exactly one.
pub open spec fn spec_resolve_accepts(m: Map<Seq<char>, Slot>, id: Seq<char>) -> bool {
    m.contains_key(id) && m[id] is Waiting
}

pub open spec fn spec_resolve(m: Map<Seq<char>, Slot>, id: Seq<char>, payload: Seq<char>) -> Map<
    Seq<char>,
    Slot,
> {
    if spec_resolve_accepts(m, id) {
        m.insert(id, Slot::Delivered(payload))
    } else {
        m
    }
}

/// What `take` returns and does to the table: a delivered payload is
/// handed out once and its entry destroyed.
pub open spec fn spec_take_yields(m: Map<Seq<char>, Slot>, id: Seq<char>) -> Option<Seq<char>> {
    if m.contains_key(id) && m[id] is Delivered {
        Some(m[id]->Delivered_0)
    } else {
        None
    }
}

impl CorrelationRouter {
    /// No two live entries share an identifier.
    pub closed spec fn wf(&self) -> bool {
        forall|i: int, j: int|
            0 <= i < j < self.entries@.len() ==> self.entries@[i].0@ != self.entries@[j].0@
    }

    pub fn new() -> (r: Self)
        ensures
            r.wf(),
            r@ == Map::<Seq<char>, Slot>::empty(),
    {
        CorrelationRouter { entries: Vec::new() }
    }

    /// Index of the entry for `id`, if one is live.
    fn find(&self, id: &str) -> (r: Option<usize>)
        ensures
            match r {
                Some(j) => j < self.entries@.len() && self.entries@[j as int].0@ == id@,
                None => forall|i: int|
                    0 <= i < self.entries@.len() ==> self.entries@[i].0@ != id@,
            },
    {
        let n = self.entries.len();
        let mut i: usize = 0;
        while i < n
            invariant
                i <= n,
                n == self.entries@.len(),
                forall|k: int| 0 <= k < i ==> self.entries@[k].0@ != id@,
            decreases n - i,
        {
            if crate::utils::str_eq(self.entries[i].0.as_str(), id) {
                return Some(i);
            }
            i += 1;
        }
        None
    }

    /// Allocates a fresh call identifier, inserts an empty pending call
    /// under it, and returns the identifier the owning task will await.
    /// The identifier is random; a collision with a live entry would
    /// overwrite it, an accepted risk that is not defended against.
    pub fn register(&mut self) -> (id: String)
        requires
            old(self).wf(),
        ensures
            final(self).wf(),
            final(self)@ == spec_register(old(self)@, id@),
            id@.len() == 41 && seq_starts_with(id@, "call-"@),
    {
        let id = gen_call_id();
        self.register_id(id.clone());
        id
    }

    /// Inserts an empty pending call under a caller-chosen identifier.
    pub fn register_id(&mut self, id: String)
        requires
            old(self).wf(),
        ensures
            final(self).wf(),
            final(self)@ == spec_register(old(self)@, id@),
    {
        match self.find(id.as_str()) {
            Some(j) => {
                let ghost old_entries = self.entries@;
                let (k, _) = self.entries.remove(j);
                proof {
                    old_entries.remove_ensures(j as int);
                    lemma_entries_map_remove(old_entries, j as int);
                    lemma_not_found_not_in_map(self.entries@, id@);
                }
                self.entries.push((k, SlotState::Waiting));
                proof {
                    let s = self.entries@;
                    assert(s.drop_last() =~= old_entries.remove(j as int));
                    assert(s.last() == (k, SlotState::Waiting));
                    assert(entries_map(s) == entries_map(old_entries.remove(j as int)).insert(
                        k@,
                        SlotState::Waiting@,
                    ));
                    assert(self@ =~= spec_register(old(self)@, id@));
                }
            },
            None => {
                let ghost old_entries = self.entries@;
                self.entries.push((id, SlotState::Waiting));
                proof {
                    let s = self.entries@;
                    assert(s.drop_last() =~= old_entries);
                    assert(self@ =~= spec_register(old(self)@, id@));
                }
            },
        }
    }

    /// Delivers `payload` to the pending call registered under `id`.
    /// Returns true and fulfills the slot when `id` is known and still
    /// waiting; returns false and changes nothing at all otherwise —
    /// an unknown, already-resolved or abandoned identifier is tolerated
    /// silently, by design.
    pub fn resolve(&mut self, id: &str, payload: String) -> (accepted: bool)
        requires
            old(self).wf(),
        ensures
            final(self).wf(),
            accepted == spec_resolve_accepts(old(self)@, id@),
            final(self)@ == spec_resolve(old(self)@, id@, payload@),
            !accepted ==> final(self)@ == old(self)@,
    {
        let ghost old_entries = self.entries@;
        match self.find(id) {
            Some(j) => {
                proof {
                    lemma_found_in_map(self.entries@, j as int);
                }
                let waiting = match &self.entries[j].1 {
                    SlotState::Waiting => true,
                    SlotState::Delivered(_) => false,
                };
                if waiting {
                    let ghost p = payload@;
                    let (k, _) = self.entries.remove(j);
                    proof {
                        old_entries.remove_ensures(j as int);
                        lemma_entries_map_remove(old_entries, j as int);
                        lemma_not_found_not_in_map(self.entries@, id@);
                    }
                    self.entries.push((k, SlotState::Delivered(payload)));
                    proof {
                        let s = self.entries@;
                        assert(s.drop_last() =~= old_entries.remove(j as int));
                        assert(s.last().0 == k && s.last().1@ == Slot::Delivered(p));
                        assert(entries_map(s) == entries_map(old_entries.remove(j as int)).insert(
                            k@,
                            Slot::Delivered(p),
                        ));
                        assert(self@ =~= spec_resolve(old(self)@, id@, p));
                    }
                    true
                } else {
                    false
                }
            },
            None => {
                proof {
                    lemma_not_found_not_in_map(self.entries@, id@);
                }
                false
            },
        }
    }

    /// Collects the payload delivered for `id`, destroying the entry: the
    /// reply slot is single-use. Returns nothing while the call is still
    /// pending, or when the identifier is unknown.
    pub fn take(&mut self, id: &str) -> (r: Option<String>)
        requires
            old(self).wf(),
        ensures
            final(self).wf(),
            match r {
                Some(p) => spec_take_yields(old(self)@, id@) == Some(p@) && final(self)@ == old(
                    self,
                )@.remove(id@),
                None => spec_take_yields(old(self)@, id@) is None && final(self)@ == old(self)@,
            },
    {
        let ghost old_entries = self.entries@;
        match self.find(id) {
            Some(j) => {
                proof {
                    lemma_found_in_map(self.entries@, j as int);
                }
                let delivered = match &self.entries[j].1 {
                    SlotState::Waiting => false,
                    SlotState::Delivered(_) => true,
                };
                if delivered {
                    let (_, slot) = self.entries.remove(j);
                    proof {
                        lemma_entries_map_remove(old_entries, j as int);
                    }
                    match slot {
                        SlotState::Delivered(p) => Some(p),
                        SlotState::Waiting => None,
                    }
                } else {
                    None
                }
            },
            None => {
                proof {
                    lemma_not_found_not_in_map(self.entries@, id@);
                }
                None
            },
        }
    }

    /// How many calls are live (waiting or delivered but not collected).
    pub fn len(&self) -> (n: usize)
        requires
            self.wf(),
        ensures
            self@.dom().finite(),
            n == self@.dom().len(),
    {
        proof {
            lemma_entries_map_len(self.entries@);
        }
        self.entries.len()
    }
}

/// An identifier that matches no entry is not in the table.
proof fn lemma_not_found_not_in_map(s: Seq<(String, SlotState)>, id: Seq<char>)
    requires
        forall|i: int| 0 <= i < s.len() ==> s[i].0@ != id,
    ensures
        !entries_map(s).contains_key(id),
    decreases s.len(),
{
    if s.len() > 0 {
        lemma_not_found_not_in_map(s.drop_last(), id);
    }
}

/// With distinct identifiers, the entry found is the one the table maps to.
proof fn lemma_found_in_map(s: Seq<(String, SlotState)>, j: int)
    requires
        0 <= j < s.len(),
        forall|i1: int, i2: int| 0 <= i1 < i2 < s.len() ==> s[i1].0@ != s[i2].0@,
    ensures
        entries_map(s).contains_key(s[j].0@),
        entries_map(s)[s[j].0@] == s[j].1@,
    decreases s.len(),
{
    if j == s.len() - 1 {
    } else {
        lemma_found_in_map(s.drop_last(), j);
        assert(s.drop_last()[j] == s[j]);
        assert(s.last().0@ != s[j].0@);
    }
}

/// With distinct identifiers, removing one entry removes exactly its key.
proof fn lemma_entries_map_remove(s: Seq<(String, SlotState)>, j: int)
    requires
        0 <= j < s.len(),
        forall|i1: int, i2: int| 0 <= i1 < i2 < s.len() ==> s[i1].0@ != s[i2].0@,
    ensures
        entries_map(s.remove(j)) == entries_map(s).remove(s[j].0@),
    decreases s.len(),
{
    if j == s.len() - 1 {
        assert(s.remove(j) =~= s.drop_last());
        lemma_not_found_not_in_map(s.drop_last(), s[j].0@);
        assert(entries_map(s.drop_last()) =~= entries_map(s.drop_last()).remove(s[j].0@));
        assert(entries_map(s).remove(s[j].0@) =~= entries_map(s.drop_last()).remove(s[j].0@));
    } else {
        lemma_entries_map_remove(s.drop_last(), j);
        assert(s.remove(j).drop_last() =~= s.drop_last().remove(j));
        assert(s.remove(j).last() == s.last());
        assert(entries_map(s.remove(j)) == entries_map(s.drop_last().remove(j)).insert(
            s.last().0@,
            s.last().1@,
        ));
        assert(s.drop_last()[j] == s[j]);
        assert(s.last().0@ != s[j].0@);
        assert(entries_map(s.drop_last().remove(j)).insert(s.last().0@, s.last().1@)
            =~= entries_map(s.drop_last()).insert(s.last().0@, s.last().1@).remove(s[j].0@));
    }
}

/// With distinct identifiers, the table has exactly one key per entry.
proof fn lemma_entries_map_len(s: Seq<(String, SlotState)>)
    requires
        forall|i1: int, i2: int| 0 <= i1 < i2 < s.len() ==> s[i1].0@ != s[i2].0@,
    ensures
        entries_map(s).dom().finite(),
        entries_map(s).dom().len() == s.len(),
    decreases s.len(),
{
    if s.len() > 0 {
        lemma_entries_map_len(s.drop_last());
        lemma_not_found_not_in_map(s.drop_last(), s.last().0@);
        assert(entries_map(s).dom() =~= entries_map(s.drop_last()).dom().insert(s.last().0@));
    }
}

/// The single-use rendezvous law: registering a call and resolving it with
/// payload `p` is accepted; the waiter then collects exactly `p`; a second
/// resolution of the same identifier, with anything, is a no-op; and a
/// second collection finds nothing.
pub proof fn lemma_single_use_rendezvous(
    m: Map<Seq<char>, Slot>,
    id: Seq<char>,
    p: Seq<char>,
    q: Seq<char>,
)
    ensures
        spec_resolve_accepts(spec_register(m, id), id),
        spec_take_yields(spec_resolve(spec_register(m, id), id, p), id) == Some(p),
        !spec_resolve_accepts(spec_resolve(spec_register(m, id), id, p), id),
        spec_resolve(spec_resolve(spec_register(m, id), id, p), id, q) == spec_resolve(
            spec_register(m, id),
            id,
            p,
        ),
        spec_take_yields(spec_resolve(spec_register(m, id), id, p).remove(id), id) is None,
{
}

/// Resolving an identifier that is not in the table is refused and moves
/// nothing: spurious and late deliveries are safe.
pub proof fn lemma_resolve_unknown_is_noop(m: Map<Seq<char>, Slot>, id: Seq<char>, p: Seq<char>)
    requires
        !m.contains_key(id),
    ensures
        !spec_resolve_accepts(m, id),
        spec_resolve(m, id, p) == m,
{
}

} // verus!
