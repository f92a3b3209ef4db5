//! The voting calculus: votes, side switching, close decisions and the
//! default-vote strategies.

use notifications::motion::{
    is_member, Backing, CloseVerdict, DefaultVote, MoreThanMajorityThenPrimeDefaultVote,
    MotionError, PrimeDefaultVote, RawOrigin, Votes,
};

#[test]
fn first_vote_and_duplicate_vote() {
    let mut votes = Votes::new(3, 2, 100);

    // The first vote of a member reports so; a repeat on the same side
    // is refused and changes nothing.
    assert_eq!(votes.vote(1, 3, true), Ok(true));
    assert_eq!(votes.vote(1, 3, true), Err(MotionError::DuplicateVote));
    assert_eq!(votes.ayes(), &vec![1]);
    assert!(votes.nays().is_empty());

    // Voting with the wrong proposal index is refused.
    assert_eq!(votes.vote(2, 4, true), Err(MotionError::WrongIndex));
}

#[test]
fn changing_sides_moves_the_vote() {
    let mut votes = Votes::new(0, 2, 100);
    assert_eq!(votes.vote(1, 0, true), Ok(true));
    assert_eq!(votes.vote(2, 0, true), Ok(true));

    // Member 1 changes their mind: no longer an aye, and not a first
    // vote.
    assert_eq!(votes.vote(1, 0, false), Ok(false));
    assert!(!votes.ayes().contains(&1));
    assert_eq!(votes.nays(), &vec![1]);
    assert_eq!(votes.ayes(), &vec![2]);
}

#[test]
fn close_decisions() {
    let mut votes = Votes::new(0, 2, 100);

    // Nothing decided yet, and the period still runs: too early.
    assert_eq!(
        votes.close_decision(4, 50, false),
        Err(MotionError::TooEarly)
    );

    // Enough ayes close the motion early.
    assert_eq!(votes.vote(1, 0, true), Ok(true));
    assert_eq!(votes.vote(2, 0, true), Ok(true));
    assert_eq!(
        votes.close_decision(4, 50, false),
        Ok(CloseVerdict::Approved { yes_votes: 2, no_votes: 0 })
    );

    // Enough nays close it early the other way.
    let mut votes = Votes::new(0, 2, 100);
    assert_eq!(votes.vote(1, 0, false), Ok(true));
    assert_eq!(votes.vote(2, 0, false), Ok(true));
    assert_eq!(votes.vote(3, 0, false), Ok(true));
    assert_eq!(
        votes.close_decision(4, 50, false),
        Ok(CloseVerdict::Disapproved { yes_votes: 0, no_votes: 3 })
    );
}

#[test]
fn abstentions_follow_the_default_vote() {
    // One aye, one nay, two abstentions among four seats; threshold 3.
    let mut votes = Votes::new(0, 3, 100);
    assert_eq!(votes.vote(1, 0, true), Ok(true));
    assert_eq!(votes.vote(2, 0, false), Ok(true));

    // After the period, a default of aye lifts the motion over the
    // threshold; a default of nay sinks it.
    assert_eq!(
        votes.close_decision(4, 100, true),
        Ok(CloseVerdict::Approved { yes_votes: 3, no_votes: 1 })
    );
    assert_eq!(
        votes.close_decision(4, 100, false),
        Ok(CloseVerdict::Disapproved { yes_votes: 1, no_votes: 3 })
    );
}

#[test]
fn prime_vote_is_read_from_the_ayes() {
    let mut votes = Votes::new(0, 2, 100);
    assert_eq!(votes.vote(7, 0, true), Ok(true));
    assert_eq!(votes.vote(8, 0, false), Ok(true));

    assert_eq!(votes.prime_vote(Some(7)), Some(true));
    assert_eq!(votes.prime_vote(Some(8)), Some(false));
    assert_eq!(votes.prime_vote(None), None);
}

#[test]
fn default_vote_strategies() {
    // The prime's vote alone decides.
    assert!(PrimeDefaultVote::default_vote(Some(true), 0, 5, 10));
    assert!(!PrimeDefaultVote::default_vote(Some(false), 9, 0, 10));
    assert!(!PrimeDefaultVote::default_vote(None, 9, 0, 10));

    // More than a majority of ayes wins regardless of the prime.
    assert!(MoreThanMajorityThenPrimeDefaultVote::default_vote(
        None, 6, 0, 10
    ));
    assert!(MoreThanMajorityThenPrimeDefaultVote::default_vote(
        Some(false),
        6,
        0,
        10
    ));
    // At exactly half, the prime decides.
    assert!(!MoreThanMajorityThenPrimeDefaultVote::default_vote(
        None, 5, 0, 10
    ));
    assert!(MoreThanMajorityThenPrimeDefaultVote::default_vote(
        Some(true),
        5,
        0,
        10
    ));
    // The widened arithmetic never wraps.
    assert!(MoreThanMajorityThenPrimeDefaultVote::default_vote(
        None,
        u32::MAX,
        0,
        u32::MAX
    ));
}

#[test]
fn membership_and_backing() {
    let members = vec![1u64, 5, 9];
    assert!(is_member(&members, 5));
    assert!(!is_member(&members, 4));

    assert_eq!(
        RawOrigin::Members(3, 7).get_backing(),
        Some(Backing { approvals: 3, eligible: 7 })
    );
    assert_eq!(RawOrigin::Member(5).get_backing(), None);
}
