use captcha_gate::{ChallengeStore, MatchResult};

#[test]
fn absent_record_checked_twice_is_no_challenge() {
    let mut store = ChallengeStore::new();
    assert_eq!(store.check_and_consume(7, "AB12C"), MatchResult::NoChallenge);
    assert_eq!(store.check_and_consume(7, "AB12C"), MatchResult::NoChallenge);
    assert!(!store.contains(7));
}

#[test]
fn right_answer_round_trip() {
    let mut store = ChallengeStore::new();
    store.put(1, "AB12C".to_string());
    assert_eq!(store.check_and_consume(1, "AB12C"), MatchResult::Correct);
    assert_eq!(store.check_and_consume(1, "AB12C"), MatchResult::NoChallenge);
}

#[test]
fn mismatch_does_not_consume() {
    let mut store = ChallengeStore::new();
    store.put(1, "AB12C".to_string());
    assert_eq!(store.check_and_consume(1, "zzzzz"), MatchResult::Incorrect);
    assert!(store.contains(1));
    assert_eq!(store.check_and_consume(1, "AB12C"), MatchResult::Correct);
}

#[test]
fn comparison_is_case_sensitive() {
    let mut store = ChallengeStore::new();
    store.put(1, "AB12C".to_string());
    assert_eq!(store.check_and_consume(1, "ab12c"), MatchResult::Incorrect);
    assert_eq!(store.check_and_consume(1, "AB12C"), MatchResult::Correct);
}

#[test]
fn reissue_overwrites() {
    let mut store = ChallengeStore::new();
    store.put(1, "AAAAA".to_string());
    store.put(1, "BBBBB".to_string());
    assert_eq!(store.check_and_consume(1, "AAAAA"), MatchResult::Incorrect);
    assert_eq!(store.check_and_consume(1, "BBBBB"), MatchResult::Correct);
}

#[test]
fn distinct_members_keep_their_records() {
    let mut store = ChallengeStore::new();
    store.put(1, "AAAAA".to_string());
    store.put(2, "BBBBB".to_string());
    store.put(1, "CCCCC".to_string());
    assert_eq!(store.check_and_consume(2, "CCCCC"), MatchResult::Incorrect);
    assert_eq!(store.check_and_consume(1, "BBBBB"), MatchResult::Incorrect);
    assert_eq!(store.check_and_consume(2, "BBBBB"), MatchResult::Correct);
    assert_eq!(store.check_and_consume(1, "CCCCC"), MatchResult::Correct);
}

#[test]
fn empty_solution_matches_only_empty_reply() {
    let mut store = ChallengeStore::new();
    store.put(u64::MAX, String::new());
    assert_eq!(store.check_and_consume(u64::MAX, " "), MatchResult::Incorrect);
    assert_eq!(store.check_and_consume(u64::MAX, ""), MatchResult::Correct);
    assert!(!store.contains(u64::MAX));
}
