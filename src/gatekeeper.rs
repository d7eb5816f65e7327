use crate::captcha_builder::{build_captcha, Challenge};
use crate::messages::{decimal, get_user_send_error, occurs_in, replace_all, user_id_mark};
use crate::store::{consumed, match_of, ChallengeStore, MatchResult};
use vstd::prelude::*;

verus! {

/// What the caller does after a message has been weighed.
pub enum MessageAction {
    /// The sender is not restricted or the message is not private: nothing
    /// more happens.
    Ignore,
    /// The answer was right and its record is gone: lift the restriction and
    /// confirm in the private channel.
    Validated,
    /// No right answer: deliver this fresh challenge, whose solution is now
    /// the member's record.
    Retry(Challenge),
}

/// What the caller does once a challenge delivery was attempted.
pub enum DeliveryFollowUp {
    /// The member received the challenge.
    Delivered,
    /// The member could not be reached: post this notice, which names the
    /// member, in the fallback channel. No second delivery is tried.
    Notify(String),
    /// The member could not be reached and the notice template has no
    /// place for the member's id.
    NoticeUnavailable,
}

/// The step after a private delivery to `member`: nothing when `delivered`,
/// else the fallback notice made from `notice_template`.
pub fn after_delivery(delivered: bool, notice_template: &str, member: u64) -> (r: DeliveryFollowUp)
    ensures
        delivered ==> r is Delivered,
        !delivered && occurs_in(notice_template@, user_id_mark()) ==> (r matches DeliveryFollowUp::Notify(n)
            && n@ == replace_all(notice_template@, user_id_mark(), decimal(member as nat))),
        !delivered && !occurs_in(notice_template@, user_id_mark()) ==> r is NoticeUnavailable,
{
    if delivered {
        return DeliveryFollowUp::Delivered;
    }
    match get_user_send_error(notice_template, member) {
        Some(notice) => DeliveryFollowUp::Notify(notice),
        None => DeliveryFollowUp::NoticeUnavailable,
    }
}

/// Generates a challenge for `user_id` and stores its solution, replacing
/// any earlier one.
pub fn create_captcha(store: &mut ChallengeStore, user_id: u64) -> (r: Challenge)
    ensures
        final(store)@ == old(store)@.insert(user_id, r.text@),
        r.text@.len() == 5,
{
    let challenge = build_captcha();
    store.put(user_id, challenge.text.clone());
    challenge
}

/// The step after a member joined and the restricted role was asked for:
/// when `restricted` (the role was granted) a challenge is issued and
/// returned for delivery; otherwise the event is abandoned and the store
/// left alone.
pub fn on_join(store: &mut ChallengeStore, member: u64, restricted: bool) -> (r: Option<Challenge>)
    ensures
        r.is_some() == restricted,
        !restricted ==> final(store)@ == old(store)@,
        r matches Some(c) ==> final(store)@ == old(store)@.insert(member, c.text@),
{
    if !restricted {
        return None;
    }
    Some(create_captcha(store, member))
}

/// Weighs the message `reply` of `member`, who holds the restricted role
/// when `restricted`, sent over a private channel when `private`. Only a
/// restricted member writing privately reaches the store: a right answer
/// consumes the record, anything else issues a fresh challenge.
pub fn on_message(store: &mut ChallengeStore, member: u64, restricted: bool, private: bool, reply: &str) -> (r: MessageAction)
    ensures
        !(restricted && private) ==> r is Ignore && final(store)@ == old(store)@,
        restricted && private && match_of(old(store)@, member, reply@) == MatchResult::Correct ==> r is Validated
            && final(store)@ == consumed(old(store)@, member, reply@),
        restricted && private && match_of(old(store)@, member, reply@) != MatchResult::Correct ==> (
        r matches MessageAction::Retry(c) && final(store)@ == old(store)@.insert(member, c.text@)),
{
    if !(restricted && private) {
        return MessageAction::Ignore;
    }
    match store.check_and_consume(member, reply) {
        MatchResult::Correct => MessageAction::Validated,
        _ => MessageAction::Retry(create_captcha(store, member)),
    }
}

/// A join whose restriction was granted leaves exactly one record for the
/// member, holding the solution of the challenge issued, and touches no
/// other member's record.
pub proof fn lemma_join_leaves_one_record(records: Map<u64, Seq<char>>, member: u64, solution: Seq<char>)
    ensures
        records.insert(member, solution).contains_key(member),
        records.insert(member, solution)[member] == solution,
        records.insert(member, solution).dom() == records.dom().insert(member),
        forall|other: u64|
            other != member ==> #[trigger] records.insert(member, solution).contains_key(other)
                == records.contains_key(other),
{
}

} // verus!
