//! The calls of one connection that await a response: for each message
//! identifier, the action that was sent under it.

use vstd::prelude::*;

use crate::text::same_text;

verus! {

/// Why an identifier cannot be registered.
#[derive(Clone, Copy, Debug, PartialEq, Eq, Hash, Structural)]
pub enum TrackerError {
    /// A call is outstanding under this identifier already.
    DuplicateMessageId,
}

/// What registering an identifier for an action makes of the outstanding
/// calls: it fails where the identifier is outstanding, and else adds it.
pub open spec fn registered(
    pending: Map<Seq<char>, Seq<char>>,
    id: Seq<char>,
    action: Seq<char>,
) -> Result<Map<Seq<char>, Seq<char>>, TrackerError> {
    if pending.contains_key(id) {
        Err(TrackerError::DuplicateMessageId)
    } else {
        Ok(pending.insert(id, action))
    }
}

/// The action that a response under an identifier resolves to, and the calls
/// that stay outstanding after it: nothing and all of them where the
/// identifier is not outstanding.
pub open spec fn resolved(pending: Map<Seq<char>, Seq<char>>, id: Seq<char>) -> (
    Option<Seq<char>>,
    Map<Seq<char>, Seq<char>>,
) {
    if pending.contains_key(id) {
        (Some(pending[id]), pending.remove(id))
    } else {
        (None, pending)
    }
}

/// Correlation: once an identifier is registered for an action, a response
/// under it resolves to that action and leaves the calls as they were before;
/// a second response under it resolves to nothing.
pub proof fn lemma_register_then_resolve(
    pending: Map<Seq<char>, Seq<char>>,
    id: Seq<char>,
    action: Seq<char>,
)
    requires
        registered(pending, id, action) is Ok,
    ensures
        ({
            let after = registered(pending, id, action)->Ok_0;
            let (first, rest) = resolved(after, id);
            let (second, last) = resolved(rest, id);
            &&& first == Some(action)
            &&& rest == pending
            &&& second is None
            &&& last == rest
        }),
{
    assert(pending.insert(id, action).remove(id) =~= pending);
}

/// An identifier that was registered cannot be registered again while its
/// call is outstanding, whatever the action.
pub proof fn lemma_duplicate_rejected(
    pending: Map<Seq<char>, Seq<char>>,
    id: Seq<char>,
    action: Seq<char>,
    other: Seq<char>,
)
    requires
        registered(pending, id, action) is Ok,
    ensures
        registered(registered(pending, id, action)->Ok_0, id, other) == Err::<
            Map<Seq<char>, Seq<char>>,
            TrackerError,
        >(TrackerError::DuplicateMessageId),
{
}

/// Once its response is resolved, an identifier can be registered anew.
pub proof fn lemma_resolved_can_register(
    pending: Map<Seq<char>, Seq<char>>,
    id: Seq<char>,
    action: Seq<char>,
)
    ensures
        registered(resolved(pending, id).1, id, action) is Ok,
{
}

/// The identifiers and actions of a list of entries, as texts.
spec fn entries_view(entries: Seq<(String, String)>) -> Seq<(Seq<char>, Seq<char>)> {
    Seq::new(entries.len(), |i: int| (entries[i].0@, entries[i].1@))
}

/// No identifier occurs twice.
spec fn distinct_ids(entries: Seq<(Seq<char>, Seq<char>)>) -> bool {
    forall|i: int, j: int|
        0 <= i < entries.len() && 0 <= j < entries.len() && i != j ==> (#[trigger] entries[i]).0
            != (#[trigger] entries[j]).0
}

/// The map from identifier to action that a list of entries stands for.
spec fn pending_of(entries: Seq<(Seq<char>, Seq<char>)>) -> Map<Seq<char>, Seq<char>>
    decreases entries.len(),
{
    if entries.len() == 0 {
        Map::empty()
    } else {
        pending_of(entries.drop_last()).insert(entries.last().0, entries.last().1)
    }
}

/// An identifier is in the map exactly where an entry holds it.
proof fn lemma_pending_keys(entries: Seq<(Seq<char>, Seq<char>)>, id: Seq<char>)
    ensures
        pending_of(entries).contains_key(id) <==> exists|i: int|
            0 <= i < entries.len() && (#[trigger] entries[i]).0 == id,
    decreases entries.len(),
{
    if entries.len() > 0 {
        let front = entries.drop_last();
        lemma_pending_keys(front, id);
        if pending_of(entries).contains_key(id) {
            if entries.last().0 == id {
                assert(entries[entries.len() - 1].0 == id);
            } else {
                let i = choose|i: int| 0 <= i < front.len() && (#[trigger] front[i]).0 == id;
                assert(entries[i].0 == id);
            }
        }
        if exists|i: int| 0 <= i < entries.len() && (#[trigger] entries[i]).0 == id {
            let i = choose|i: int| 0 <= i < entries.len() && (#[trigger] entries[i]).0 == id;
            if i < entries.len() - 1 {
                assert(front[i].0 == id);
            }
        }
    }
}

/// Where no identifier occurs twice, the map gives each entry's action.
proof fn lemma_pending_value(entries: Seq<(Seq<char>, Seq<char>)>, at: int)
    requires
        distinct_ids(entries),
        0 <= at < entries.len(),
    ensures
        pending_of(entries).contains_key(entries[at].0),
        pending_of(entries)[entries[at].0] == entries[at].1,
    decreases entries.len(),
{
    let front = entries.drop_last();
    if at < entries.len() - 1 {
        assert(distinct_ids(front)) by {
            assert forall|i: int, j: int|
                0 <= i < front.len() && 0 <= j < front.len() && i != j implies (
            #[trigger] front[i]).0 != (#[trigger] front[j]).0 by {
                assert(entries[i].0 != entries[j].0);
            }
        }
        lemma_pending_value(front, at);
        assert(front[at] == entries[at]);
        assert(entries[at].0 != entries[entries.len() - 1].0);
    }
}

/// Where no identifier occurs twice, taking an entry out takes its
/// identifier out of the map.
proof fn lemma_pending_remove(entries: Seq<(Seq<char>, Seq<char>)>, at: int)
    requires
        distinct_ids(entries),
        0 <= at < entries.len(),
    ensures
        distinct_ids(entries.remove(at)),
        pending_of(entries.remove(at)) == pending_of(entries).remove(entries[at].0),
    decreases entries.len(),
{
    let rest = entries.remove(at);
    assert(distinct_ids(rest)) by {
        assert forall|i: int, j: int|
            0 <= i < rest.len() && 0 <= j < rest.len() && i != j implies (#[trigger] rest[i]).0 != (
        #[trigger] rest[j]).0 by {
            let a = if i < at { i } else { i + 1 };
            let b = if j < at { j } else { j + 1 };
            assert(rest[i] == entries[a]);
            assert(rest[j] == entries[b]);
            assert(entries[a].0 != entries[b].0);
        }
    }
    let front = entries.drop_last();
    if at == entries.len() - 1 {
        assert(rest =~= front);
        lemma_pending_keys(front, entries[at].0);
        if pending_of(front).contains_key(entries[at].0) {
            let i = choose|i: int| 0 <= i < front.len() && (#[trigger] front[i]).0 == entries[at].0;
            assert(entries[i].0 == entries[at].0);
        }
        assert(pending_of(front) =~= pending_of(entries).remove(entries[at].0));
    } else {
        assert(distinct_ids(front)) by {
            assert forall|i: int, j: int|
                0 <= i < front.len() && 0 <= j < front.len() && i != j implies (
            #[trigger] front[i]).0 != (#[trigger] front[j]).0 by {
                assert(entries[i].0 != entries[j].0);
            }
        }
        lemma_pending_remove(front, at);
        assert(rest.drop_last() =~= front.remove(at));
        assert(rest.last() == entries.last());
        assert(front[at] == entries[at]);
        assert(entries[at].0 != entries[entries.len() - 1].0);
        assert(pending_of(rest) =~= pending_of(entries).remove(entries[at].0));
    }
}

/// The outstanding calls of one connection.
#[derive(Debug)]
pub struct CorrelationTracker {
    entries: Vec<(String, String)>,
}

impl View for CorrelationTracker {
    type V = Map<Seq<char>, Seq<char>>;

    /// The action of each outstanding identifier.
    closed spec fn view(&self) -> Map<Seq<char>, Seq<char>> {
        pending_of(entries_view(self.entries@))
    }
}

impl CorrelationTracker {
    #[verifier::type_invariant]
    spec fn distinct(self) -> bool {
        distinct_ids(entries_view(self.entries@))
    }

    /// A tracker without outstanding calls.
    pub fn new() -> (tracker: CorrelationTracker)
        ensures
            tracker@ == Map::<Seq<char>, Seq<char>>::empty(),
    {
        CorrelationTracker { entries: Vec::new() }
    }

    /// The position of the entry of an identifier.
    fn position(&self, id: &str) -> (at: Option<usize>)
        ensures
            match at {
                Some(at) => at < self.entries@.len() && self.entries@[at as int].0@ == id@,
                None => !self@.contains_key(id@),
            },
    {
        let ghost all = entries_view(self.entries@);
        let mut i: usize = 0;
        while i < self.entries.len()
            invariant
                i <= self.entries.len(),
                all == entries_view(self.entries@),
                forall|k: int| 0 <= k < i ==> (#[trigger] all[k]).0 != id@,
            decreases self.entries.len() - i,
        {
            if same_text(self.entries[i].0.as_str(), id) {
                return Some(i);
            }
            assert(all[i as int].0 != id@);
            i = i + 1;
        }
        proof {
            lemma_pending_keys(all, id@);
        }
        None
    }

    /// Whether a call is outstanding under an identifier.
    pub fn is_pending(&self, id: &str) -> (pending: bool)
        ensures
            pending == self@.contains_key(id@),
    {
        match self.position(id) {
            Some(at) => {
                proof {
                    use_type_invariant(self);
                    let all = entries_view(self.entries@);
                    assert(all[at as int].0 == id@);
                    lemma_pending_keys(all, id@);
                }
                true
            },
            None => false,
        }
    }

    /// Registers a call that goes out under an identifier. Fails, and changes
    /// nothing, where a call is outstanding under it.
    pub fn register(&mut self, id: String, action: String) -> (result: Result<(), TrackerError>)
        ensures
            match result {
                Ok(_) => registered(old(self)@, id@, action@) == Ok::<
                    Map<Seq<char>, Seq<char>>,
                    TrackerError,
                >(final(self)@),
                Err(error) => registered(old(self)@, id@, action@) == Err::<
                    Map<Seq<char>, Seq<char>>,
                    TrackerError,
                >(error) && final(self)@ == old(self)@,
            },
    {
        match self.position(id.as_str()) {
            Some(at) => {
                proof {
                    let all = entries_view(self.entries@);
                    assert(all[at as int].0 == id@);
                    lemma_pending_keys(all, id@);
                }
                Err(TrackerError::DuplicateMessageId)
            },
            None => {
                proof {
                    use_type_invariant(&*self);
                    lemma_pending_keys(entries_view(self.entries@), id@);
                }
                let ghost before = entries_view(self.entries@);
                let mut entries: Vec<(String, String)> = Vec::new();
                core::mem::swap(&mut self.entries, &mut entries);
                entries.push((id, action));
                proof {
                    let after = entries_view(entries@);
                    assert(after.drop_last() =~= before);
                    assert(after.last() == (id@, action@));
                    assert(distinct_ids(after)) by {
                        assert forall|i: int, j: int|
                            0 <= i < after.len() && 0 <= j < after.len() && i != j implies (
                        #[trigger] after[i]).0 != (#[trigger] after[j]).0 by {
                            if i < before.len() {
                                assert(after[i] == before[i]);
                            }
                            if j < before.len() {
                                assert(after[j] == before[j]);
                            }
                        }
                    }
                }
                core::mem::swap(&mut self.entries, &mut entries);
                Ok(())
            },
        }
    }

    /// Resolves the response under an identifier: gives the action of the
    /// call that was outstanding under it, which no longer is. Gives nothing,
    /// and changes nothing, where no call is outstanding under it.
    pub fn resolve_and_remove(&mut self, id: &str) -> (action: Option<String>)
        ensures
            match action {
                Some(action) => resolved(old(self)@, id@) == (Some(action@), final(self)@),
                None => resolved(old(self)@, id@) == (None::<Seq<char>>, final(self)@),
            },
            final(self)@ == resolved(old(self)@, id@).1,
    {
        match self.position(id) {
            None => None,
            Some(at) => {
                let ghost before = entries_view(self.entries@);
                proof {
                    use_type_invariant(&*self);
                    assert(before[at as int].0 == id@);
                    lemma_pending_value(before, at as int);
                    lemma_pending_remove(before, at as int);
                }
                let mut entries: Vec<(String, String)> = Vec::new();
                core::mem::swap(&mut self.entries, &mut entries);
                let entry = entries.remove(at);
                proof {
                    assert(entries_view(entries@) =~= before.remove(at as int));
                    assert(entry.1@ == before[at as int].1);
                }
                core::mem::swap(&mut self.entries, &mut entries);
                Some(entry.1)
            },
        }
    }
}

} // verus!
