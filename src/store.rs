use std::collections::HashMap;
use vstd::prelude::*;

verus! {

broadcast use vstd::std_specs::hash::group_hash_axioms;

/// Outcome of comparing a reply with a member's outstanding challenge.
#[derive(Debug, Clone, Copy, PartialEq, Eq, Structural)]
pub enum MatchResult {
    /// The reply equals the expected solution; the record was removed.
    Correct,
    /// A record exists and the reply differs from it; the record is kept.
    Incorrect,
    /// The member has no outstanding challenge.
    NoChallenge,
}

/// The result `check_and_consume` owes for a record map and a reply.
pub open spec fn match_of(records: Map<u64, Seq<char>>, member: u64, reply: Seq<char>) -> MatchResult {
    if !records.contains_key(member) {
        MatchResult::NoChallenge
    } else if records[member] == reply {
        MatchResult::Correct
    } else {
        MatchResult::Incorrect
    }
}

/// The record map after `check_and_consume`: the record goes only on a match.
pub open spec fn consumed(records: Map<u64, Seq<char>>, member: u64, reply: Seq<char>) -> Map<u64, Seq<char>> {
    if match_of(records, member, reply) == MatchResult::Correct {
        records.remove(member)
    } else {
        records
    }
}

/// Outstanding challenges: for each member at most one expected solution.
pub struct ChallengeStore {
    records: HashMap<u64, String>,
}

impl View for ChallengeStore {
    type V = Map<u64, Seq<char>>;

    closed spec fn view(&self) -> Map<u64, Seq<char>> {
        self.records@.map_values(|s: String| s@)
    }
}

impl ChallengeStore {
    /// An empty store.
    pub fn new() -> (r: ChallengeStore)
        ensures
            r@ == Map::<u64, Seq<char>>::empty(),
    {
        let r = ChallengeStore { records: HashMap::new() };
        assert(r@ =~= Map::<u64, Seq<char>>::empty());
        r
    }

    /// Records `solution` as the expected answer of `member`, replacing any
    /// earlier one.
    pub fn put(&mut self, member: u64, solution: String)
        ensures
            final(self)@ == old(self)@.insert(member, solution@),
    {
        self.records.insert(member, solution);
        assert(final(self)@ =~= old(self)@.insert(member, solution@));
    }

    /// Whether `member` has an outstanding challenge.
    pub fn contains(&self, member: u64) -> (r: bool)
        ensures
            r == self@.contains_key(member),
    {
        self.records.contains_key(&member)
    }

    /// Compares `reply` with the expected solution of `member` and removes
    /// the record when, and only when, they are equal.
    pub fn check_and_consume(&mut self, member: u64, reply: &str) -> (r: MatchResult)
        ensures
            r == match_of(old(self)@, member, reply@),
            final(self)@ == consumed(old(self)@, member, reply@),
    {
        let reply = reply.to_string();
        let found = match self.records.get(&member) {
            None => None,
            Some(expected) => Some(*expected == reply),
        };
        match found {
            None => MatchResult::NoChallenge,
            Some(true) => {
                self.records.remove(&member);
                assert(final(self)@ =~= old(self)@.remove(member));
                MatchResult::Correct
            },
            Some(false) => MatchResult::Incorrect,
        }
    }
}

/// A member without a record gets `NoChallenge` and leaves the store as it
/// was, so a second check with no `put` between gets `NoChallenge` again.
pub proof fn lemma_absent_check_repeats(records: Map<u64, Seq<char>>, member: u64, reply: Seq<char>)
    requires
        !records.contains_key(member),
    ensures
        match_of(records, member, reply) == MatchResult::NoChallenge,
        consumed(records, member, reply) == records,
        match_of(consumed(records, member, reply), member, reply) == MatchResult::NoChallenge,
{
}

/// After `put(m, s)` the answer `s` is `Correct` and consumes the record, so
/// the same answer given again gets `NoChallenge`.
pub proof fn lemma_right_answer_consumes(records: Map<u64, Seq<char>>, member: u64, solution: Seq<char>)
    ensures
        match_of(records.insert(member, solution), member, solution) == MatchResult::Correct,
        match_of(consumed(records.insert(member, solution), member, solution), member, solution)
            == MatchResult::NoChallenge,
{
}

/// After `put(m, s)` a different answer is `Incorrect` and keeps the record,
/// so `s` given next is still `Correct`.
pub proof fn lemma_wrong_answer_keeps(records: Map<u64, Seq<char>>, member: u64, solution: Seq<char>, wrong: Seq<char>)
    requires
        wrong != solution,
    ensures
        match_of(records.insert(member, solution), member, wrong) == MatchResult::Incorrect,
        consumed(records.insert(member, solution), member, wrong) == records.insert(member, solution),
        match_of(consumed(records.insert(member, solution), member, wrong), member, solution)
            == MatchResult::Correct,
{
}

/// A second `put` for a member replaces the first: the earlier solution is
/// `Incorrect` (and kept no record of its own) while the later one is
/// `Correct`.
pub proof fn lemma_put_overwrites(records: Map<u64, Seq<char>>, member: u64, first: Seq<char>, second: Seq<char>)
    requires
        first != second,
    ensures
        match_of(records.insert(member, first).insert(member, second), member, first)
            == MatchResult::Incorrect,
        match_of(
            consumed(records.insert(member, first).insert(member, second), member, first),
            member,
            second,
        ) == MatchResult::Correct,
{
}

/// Records of two distinct members do not disturb each other: `put`s for
/// them may come in either order and each member keeps its own solution.
pub proof fn lemma_distinct_members_independent(
    records: Map<u64, Seq<char>>,
    m1: u64,
    s1: Seq<char>,
    m2: u64,
    s2: Seq<char>,
)
    requires
        m1 != m2,
    ensures
        records.insert(m1, s1).insert(m2, s2) == records.insert(m2, s2).insert(m1, s1),
        records.insert(m1, s1).insert(m2, s2)[m1] == s1,
        records.insert(m1, s1).insert(m2, s2)[m2] == s2,
        match_of(records.insert(m1, s1).insert(m2, s2), m1, s1) == MatchResult::Correct,
        match_of(records.insert(m1, s1).insert(m2, s2), m2, s2) == MatchResult::Correct,
{
    assert(records.insert(m1, s1).insert(m2, s2) =~= records.insert(m2, s2).insert(m1, s1));
}

} // verus!
