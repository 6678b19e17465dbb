//! The table of requests that await their response.

use vstd::prelude::*;
use crate::envelope::MCPResponse;
use crate::error::ClientError;
use crate::string_map::{
    distinct_keys, has_key, lemma_map_len, lemma_pair_in_map, lemma_push_pair,
    lemma_swap_remove_pair, pairs_to_map, position, StringMap,
};

verus! {

/// What the table keeps for a request in flight: the time at which the wait
/// for its response ends, and the slot through which its caller is told the
/// outcome. The table hands a slot out once, when it takes the entry out.
#[derive(Debug)]
pub struct Pending<T> {
    pub deadline: u64,
    pub slot: T,
}

/// The end of a wait: the slot of the caller, and the outcome to put into
/// it.
#[derive(Debug)]
pub struct Completion<T> {
    pub slot: T,
    pub outcome: Result<MCPResponse, ClientError>,
}

/// The completion that tells the caller behind `slot` that its request timed
/// out.
pub open spec fn timeout_of<T>(slot: T) -> Completion<T> {
    Completion { slot, outcome: Err(ClientError::Timeout) }
}

/// The completion that tells the caller behind `slot` that the connection is
/// lost.
pub open spec fn loss_of<T>(slot: T) -> Completion<T> {
    Completion { slot, outcome: Err(ClientError::ConnectionLost) }
}

/// The entries of `pending` whose deadline has come at `now`, each as the
/// completion that reports the timeout.
pub open spec fn timed_out<T>(pending: Map<Seq<char>, Pending<T>>, now: u64) -> Map<
    Seq<char>,
    Completion<T>,
> {
    Map::new(
        |id: Seq<char>| pending.contains_key(id) && pending[id].deadline <= now,
        |id: Seq<char>| timeout_of(pending[id].slot),
    )
}

/// The entries of `pending` whose deadline lies after `now`.
pub open spec fn unexpired<T>(pending: Map<Seq<char>, Pending<T>>, now: u64) -> Map<
    Seq<char>,
    Pending<T>,
> {
    Map::new(
        |id: Seq<char>| pending.contains_key(id) && pending[id].deadline > now,
        |id: Seq<char>| pending[id],
    )
}

/// Every entry of `pending`, as the completion that reports the loss of the
/// connection.
pub open spec fn connection_lost<T>(pending: Map<Seq<char>, Pending<T>>) -> Map<
    Seq<char>,
    Completion<T>,
> {
    Map::new(|id: Seq<char>| pending.contains_key(id), |id: Seq<char>| loss_of(pending[id].slot))
}

/// Why a wait ends without a response.
#[derive(Clone, Copy)]
enum Cause {
    TimedOut,
    ConnectionLost,
}

impl Cause {
    /// The completion that tells the caller behind `slot` of this cause.
    spec fn completion<T>(self, slot: T) -> Completion<T> {
        match self {
            Cause::TimedOut => timeout_of(slot),
            Cause::ConnectionLost => loss_of(slot),
        }
    }

    fn complete<T>(self, slot: T) -> (completion: Completion<T>)
        ensures
            completion == self.completion(slot),
    {
        match self {
            Cause::TimedOut => Completion { slot, outcome: Err(ClientError::Timeout) },
            Cause::ConnectionLost => Completion { slot, outcome: Err(ClientError::ConnectionLost) },
        }
    }
}

/// The entries of `pending` that are due at `now`, each as the completion
/// that tells of `cause`.
spec fn taken<T>(pending: Map<Seq<char>, Pending<T>>, now: u64, cause: Cause) -> Map<
    Seq<char>,
    Completion<T>,
> {
    Map::new(
        |id: Seq<char>| pending.contains_key(id) && pending[id].deadline <= now,
        |id: Seq<char>| cause.completion(pending[id].slot),
    )
}

/// The requests in flight on one session, by correlation id. An id is in the
/// table at most once.
///
/// The view is the map from each pending id to its entry.
#[derive(Debug)]
pub struct PendingRegistry<T> {
    entries: StringMap<Pending<T>>,
}

impl<T> View for PendingRegistry<T> {
    type V = Map<Seq<char>, Pending<T>>;

    closed spec fn view(&self) -> Map<Seq<char>, Pending<T>> {
        self.entries@
    }
}

impl<T> PendingRegistry<T> {
    /// The invariant of the representation. Every constructor establishes it
    /// and every method keeps it.
    pub closed spec fn wf(&self) -> bool {
        self.entries.wf()
    }

    /// A table holds finitely many requests.
    pub proof fn lemma_finite(&self)
        requires
            self.wf(),
        ensures
            self@.dom().finite(),
    {
        lemma_map_len(self.entries.pairs@);
    }

    /// The empty table.
    pub fn new() -> (registry: Self)
        ensures
            registry.wf(),
            registry@ == Map::<Seq<char>, Pending<T>>::empty(),
    {
        PendingRegistry { entries: StringMap::new() }
    }

    /// The number of requests in flight.
    pub fn len(&self) -> (n: usize)
        requires
            self.wf(),
        ensures
            self@.dom().finite(),
            n == self@.len(),
    {
        self.entries.len()
    }

    /// Whether no request is in flight.
    pub fn is_empty(&self) -> (empty: bool)
        requires
            self.wf(),
        ensures
            empty == (self@ == Map::<Seq<char>, Pending<T>>::empty()),
    {
        self.entries.is_empty()
    }

    /// Whether a request with the id `id` is in flight.
    pub fn contains(&self, id: &str) -> (pending: bool)
        ensures
            pending == self@.contains_key(id@),
    {
        self.entries.contains_key(id)
    }

    /// The deadline of the request `id`, where it is in flight.
    pub fn deadline_of(&self, id: &str) -> (deadline: Option<u64>)
        requires
            self.wf(),
        ensures
            deadline == if self@.contains_key(id@) {
                Some(self@[id@].deadline)
            } else {
                None::<u64>
            },
    {
        match self.entries.get(id) {
            Some(entry) => Some(entry.deadline),
            None => None,
        }
    }

    /// Enters a request. Where `id` is already in flight the table stays as
    /// it is and the slot comes back.
    pub fn register(&mut self, id: String, deadline: u64, slot: T) -> (entered: Result<(), T>)
        requires
            old(self).wf(),
        ensures
            final(self).wf(),
            old(self)@.contains_key(id@) ==> entered == Err::<(), T>(slot) && final(self)@ == old(
                self,
            )@,
            !old(self)@.contains_key(id@) ==> entered.is_ok() && final(self)@ == old(self)@.insert(
                id@,
                Pending { deadline, slot },
            ),
    {
        if self.entries.contains_key(id.as_str()) {
            Err(slot)
        } else {
            self.entries.insert(id, Pending { deadline, slot });
            Ok(())
        }
    }

    /// Takes the request `id` out and hands its slot over. Where `id` is not
    /// in flight nothing changes.
    pub fn resolve(&mut self, id: &str) -> (slot: Option<T>)
        requires
            old(self).wf(),
        ensures
            final(self).wf(),
            final(self)@ == old(self)@.remove(id@),
            slot == if old(self)@.contains_key(id@) {
                Some(old(self)@[id@].slot)
            } else {
                None::<T>
            },
    {
        match self.entries.remove(id) {
            Some(entry) => Some(entry.slot),
            None => None,
        }
    }

    /// Takes out every request whose deadline has come at `now`, and hands
    /// over, for each and once, the completion that tells of `cause`.
    fn take_due(&mut self, now: u64, cause: Cause) -> (due: Vec<(String, Completion<T>)>)
        requires
            old(self).wf(),
        ensures
            final(self).wf(),
            final(self)@ == unexpired(old(self)@, now),
            distinct_keys(due@),
            pairs_to_map(due@) == taken(old(self)@, now, cause),
    {
        let ghost before = self@;
        let mut due: Vec<(String, Completion<T>)> = Vec::new();
        let mut i: usize = 0;
        assert(pairs_to_map(due@) =~= Map::<Seq<char>, Completion<T>>::empty());
        while i < self.entries.pairs.len()
            invariant
                distinct_keys(self.entries.pairs@),
                distinct_keys(due@),
                i <= self.entries.pairs@.len(),
                forall|j: int| 0 <= j < i ==> (#[trigger] self.entries.pairs@[j]).1.deadline > now,
                forall|id: Seq<char>| #[trigger]
                    self@.contains_key(id) ==> before.contains_key(id) && self@[id] == before[id],
                forall|id: Seq<char>| #[trigger]
                    pairs_to_map(due@).contains_key(id) ==> taken(before, now, cause).contains_key(id)
                        && pairs_to_map(due@)[id] == taken(before, now, cause)[id]
                        && !self@.contains_key(id),
                forall|id: Seq<char>| #[trigger]
                    before.contains_key(id) ==> self@.contains_key(id) || pairs_to_map(
                        due@,
                    ).contains_key(id),
            decreases self.entries.pairs@.len() - i,
        {
            if self.entries.pairs[i].1.deadline <= now {
                let ghost held = self.entries.pairs@;
                let ghost waiting = self@;
                let ghost handed = pairs_to_map(due@);
                let pair = self.entries.pairs.swap_remove(i);
                let completion = cause.complete(pair.1.slot);
                proof {
                    lemma_pair_in_map(held, i as int);
                    lemma_swap_remove_pair(held, i as int);
                    assert(self@ == waiting.remove(pair.0@));
                    assert(!has_key(due@, pair.0@)) by {
                        if has_key(due@, pair.0@) {
                            assert(handed.contains_key(pair.0@));
                        }
                    }
                    lemma_push_pair(due@, pair.0, completion);
                }
                due.push((pair.0, completion));
            } else {
                i += 1;
            }
        }
        proof {
            assert forall|id: Seq<char>| #[trigger] self@.contains_key(id) implies before[id].deadline
                > now by {
                let p = position(self.entries.pairs@, id);
                lemma_pair_in_map(self.entries.pairs@, p);
            }
            assert(self@ =~= unexpired(before, now));
            assert(pairs_to_map(due@) =~= taken(before, now, cause));
        }
        due
    }

    /// Takes out every request whose deadline has come at `now`, and hands
    /// over, for each and once, the completion that reports the timeout.
    pub fn expire(&mut self, now: u64) -> (expired: Vec<(String, Completion<T>)>)
        requires
            old(self).wf(),
        ensures
            final(self).wf(),
            final(self)@ == unexpired(old(self)@, now),
            distinct_keys(expired@),
            pairs_to_map(expired@) == timed_out(old(self)@, now),
    {
        let expired = self.take_due(now, Cause::TimedOut);
        proof {
            assert(pairs_to_map(expired@) =~= timed_out(old(self)@, now));
        }
        expired
    }

    /// Takes out every request, and hands over, for each and once, the
    /// completion that reports the loss of the connection.
    pub fn drain(&mut self) -> (drained: Vec<(String, Completion<T>)>)
        requires
            old(self).wf(),
        ensures
            final(self).wf(),
            final(self)@ == Map::<Seq<char>, Pending<T>>::empty(),
            distinct_keys(drained@),
            pairs_to_map(drained@) == connection_lost(old(self)@),
    {
        let drained = self.take_due(u64::MAX, Cause::ConnectionLost);
        proof {
            assert(self@ =~= Map::<Seq<char>, Pending<T>>::empty());
            assert(pairs_to_map(drained@) =~= connection_lost(old(self)@));
        }
        drained
    }
}

} // verus!
