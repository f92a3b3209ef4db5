//! The voting calculus of a collective's motions.
//!
//! A motion carries the set of members that approved it, the set that
//! rejected it, the approval threshold, and the hard end of its voting
//! period. Each member votes at most once per side: voting again on the
//! same side is refused, voting on the other side moves the member over.
//! Closing a motion succeeds early once enough votes stand on one side;
//! after the voting period, the abstaining members are counted with a
//! default vote chosen by a pluggable strategy.

use vstd::prelude::*;

verus! {

/// The index of a proposal among its collective's motions.
pub type ProposalIndex = u32;

/// A number of members; each member votes at most once, so it also
/// bounds the number of votes on a motion.
pub type MemberCount = u32;

/// Default voting strategy for members who did not vote.
pub trait DefaultVote {
    /// The default vote, given whether the prime member voted aye, the
    /// raw tallies, and the total number of members.
    fn default_vote(
        prime_vote: Option<bool>,
        yes_votes: MemberCount,
        no_votes: MemberCount,
        len: MemberCount,
    ) -> bool;
}

/// Set the prime member's vote as the default vote.
pub struct PrimeDefaultVote;

impl DefaultVote for PrimeDefaultVote {
    fn default_vote(
        prime_vote: Option<bool>,
        _yes_votes: MemberCount,
        _no_votes: MemberCount,
        _len: MemberCount,
    ) -> bool {
        match prime_vote {
            Option::Some(aye) => aye,
            Option::None => false,
        }
    }
}

/// First see if the yes votes are over a majority of the whole
/// collective; if so, default to yes. Otherwise use the prime member's
/// vote. The doubling is computed widened, so large tallies never wrap.
pub struct MoreThanMajorityThenPrimeDefaultVote;

impl DefaultVote for MoreThanMajorityThenPrimeDefaultVote {
    fn default_vote(
        prime_vote: Option<bool>,
        yes_votes: MemberCount,
        _no_votes: MemberCount,
        len: MemberCount,
    ) -> bool {
        let more_than_majority: bool = (yes_votes as u64) * 2 > (len as u64);
        more_than_majority || match prime_vote {
            Option::Some(aye) => aye,
            Option::None => false,
        }
    }
}

/// The backing of an origin: how many members condoned it, of how many.
#[derive(Clone, Copy, Debug, PartialEq, Eq, Structural)]
pub struct Backing {
    /// The number of members approving.
    pub approvals: MemberCount,
    /// The total number of members eligible.
    pub eligible: MemberCount,
}

/// Origin for decisions of the collective.
#[derive(Clone, Copy, Debug, PartialEq, Eq, Structural)]
pub enum RawOrigin {
    /// Condoned by a given number of members of the collective from a
    /// given total.
    Members(MemberCount, MemberCount),
    /// Condoned by a single member of the collective.
    Member(u64),
}

impl RawOrigin {
    /// The backing behind the origin, where a whole membership stands
    /// behind it.
    pub fn get_backing(&self) -> (r: Option<Backing>)
        ensures
            r == (match *self {
                RawOrigin::Members(n, d) => Option::Some(Backing { approvals: n, eligible: d }),
                RawOrigin::Member(_) => Option::<Backing>::None,
            }),
    {
        match self {
            RawOrigin::Members(n, d) => Option::Some(Backing { approvals: *n, eligible: *d }),
            RawOrigin::Member(_) => Option::None,
        }
    }
}

/// Whether `who` is one of the collective's members.
pub fn is_member(members: &Vec<u64>, who: u64) -> (r: bool)
    ensures
        r == members@.contains(who),
{
    let mut i: usize = 0;
    while i < members.len()
        invariant
            0 <= i <= members@.len(),
            forall|j: int| 0 <= j < i ==> members@[j] != who,
        decreases members@.len() - i,
    {
        if members[i] == who {
            return true;
        }
        i = i + 1;
    }
    proof {
        assert(!members@.contains(who));
    }
    false
}

/// Why a vote or a close was refused.
#[derive(Clone, Copy, Debug, PartialEq, Eq, Structural)]
pub enum MotionError {
    /// The given index does not belong to this motion.
    WrongIndex,
    /// The member already voted this way on this motion.
    DuplicateVote,
    /// The voting period has not ended and no side has won yet.
    TooEarly,
}

/// The position of the first occurrence of `who`, if any.
pub open spec fn spec_position(s: Seq<u64>, who: u64) -> Option<int>
    decreases s.len(),
{
    if s.len() == 0 {
        Option::None
    } else if s[0] == who {
        Option::Some(0int)
    } else {
        match spec_position(s.drop_first(), who) {
            Option::Some(i) => Option::Some(i + 1),
            Option::None => Option::None,
        }
    }
}

/// A first occurrence pins `spec_position` down.
proof fn lemma_spec_position_some(s: Seq<u64>, who: u64, i: int)
    requires
        0 <= i < s.len(),
        s[i] == who,
        forall|j: int| 0 <= j < i ==> s[j] != who,
    ensures
        spec_position(s, who) == Option::Some(i),
    decreases i,
{
    if i > 0 {
        lemma_spec_position_some(s.drop_first(), who, i - 1);
    }
}

/// No occurrence at all leaves `spec_position` empty.
proof fn lemma_spec_position_none(s: Seq<u64>, who: u64)
    requires
        forall|j: int| 0 <= j < s.len() ==> s[j] != who,
    ensures
        spec_position(s, who) == Option::<int>::None,
    decreases s.len(),
{
    if s.len() > 0 {
        lemma_spec_position_none(s.drop_first(), who);
    }
}

/// The position of the first occurrence of `who` in `v`, if any.
fn position_of(v: &Vec<u64>, who: u64) -> (r: Option<usize>)
    ensures
        r == (match spec_position(v@, who) {
            Option::Some(i) => Option::Some(i as usize),
            Option::None => Option::<usize>::None,
        }),
{
    let mut i: usize = 0;
    while i < v.len()
        invariant
            0 <= i <= v@.len(),
            forall|j: int| 0 <= j < i ==> v@[j] != who,
        decreases v@.len() - i,
    {
        if v[i] == who {
            proof {
                lemma_spec_position_some(v@, who, i as int);
            }
            return Option::Some(i);
        }
        i = i + 1;
    }
    proof {
        lemma_spec_position_none(v@, who);
    }
    Option::None
}

/// The abstract state of a motion being voted on.
pub struct VotesView {
    pub index: ProposalIndex,
    pub threshold: MemberCount,
    pub ayes: Seq<u64>,
    pub nays: Seq<u64>,
    pub end: u64,
}

/// Info for keeping track of a motion being voted on.
#[derive(Debug)]
pub struct Votes {
    index: ProposalIndex,
    threshold: MemberCount,
    ayes: Vec<u64>,
    nays: Vec<u64>,
    end: u64,
}

impl View for Votes {
    type V = VotesView;

    closed spec fn view(&self) -> VotesView {
        VotesView {
            index: self.index,
            threshold: self.threshold,
            ayes: self.ayes@,
            nays: self.nays@,
            end: self.end,
        }
    }
}

/// A list with its first occurrence of `who` removed the way
/// `swap_remove` removes it: the last entry takes its place.
pub open spec fn without_vote(s: Seq<u64>, who: u64) -> Seq<u64> {
    match spec_position(s, who) {
        Option::Some(i) => s.update(i, s.last()).drop_last(),
        Option::None => s,
    }
}

/// What one vote does: a wrong index or a repeated vote on the same side
/// is refused and changes nothing; otherwise the member joins the chosen
/// side, leaves the other side if they stood there, and the result says
/// whether this was the member's first vote on the motion.
pub open spec fn vote_spec(v: VotesView, who: u64, index: ProposalIndex, approve: bool) -> (
    VotesView,
    Result<bool, MotionError>,
) {
    if v.index != index {
        (v, Result::Err(MotionError::WrongIndex))
    } else {
        let first_time = spec_position(v.ayes, who) is None && spec_position(v.nays, who) is None;
        if approve {
            if spec_position(v.ayes, who) is Some {
                (v, Result::Err(MotionError::DuplicateVote))
            } else {
                (
                    VotesView { ayes: v.ayes.push(who), nays: without_vote(v.nays, who), ..v },
                    Result::Ok(first_time),
                )
            }
        } else {
            if spec_position(v.nays, who) is Some {
                (v, Result::Err(MotionError::DuplicateVote))
            } else {
                (
                    VotesView { ayes: without_vote(v.ayes, who), nays: v.nays.push(who), ..v },
                    Result::Ok(first_time),
                )
            }
        }
    }
}

/// The verdict of a closed motion, with the final tallies.
#[derive(Clone, Copy, Debug, PartialEq, Eq, Structural)]
pub enum CloseVerdict {
    /// The motion passed.
    Approved { yes_votes: MemberCount, no_votes: MemberCount },
    /// The motion failed.
    Disapproved { yes_votes: MemberCount, no_votes: MemberCount },
}

/// What closing decides: approval as soon as the threshold is met,
/// disapproval as soon as it cannot be met any more, and otherwise —
/// only after the voting period — the abstentions count with the
/// default vote.
pub open spec fn close_spec(v: VotesView, seats: MemberCount, now: u64, default: bool) -> Result<
    CloseVerdict,
    MotionError,
> {
    let yes_votes = v.ayes.len() as MemberCount;
    let no_votes = v.nays.len() as MemberCount;
    if yes_votes >= v.threshold {
        Result::Ok(CloseVerdict::Approved { yes_votes, no_votes })
    } else if seats - no_votes < v.threshold {
        Result::Ok(CloseVerdict::Disapproved { yes_votes, no_votes })
    } else if now < v.end {
        Result::Err(MotionError::TooEarly)
    } else {
        let abstentions = (seats - (yes_votes + no_votes)) as MemberCount;
        if default {
            let yes_total = (yes_votes + abstentions) as MemberCount;
            if yes_total >= v.threshold {
                Result::Ok(CloseVerdict::Approved { yes_votes: yes_total, no_votes })
            } else {
                Result::Ok(CloseVerdict::Disapproved { yes_votes: yes_total, no_votes })
            }
        } else {
            Result::Ok(
                CloseVerdict::Disapproved {
                    yes_votes,
                    no_votes: (no_votes + abstentions) as MemberCount,
                },
            )
        }
    }
}

impl Votes {
    /// A fresh motion: nobody voted yet.
    pub fn new(index: ProposalIndex, threshold: MemberCount, end: u64) -> (r: Self)
        ensures
            r@ == (VotesView {
                index,
                threshold,
                ayes: Seq::<u64>::empty(),
                nays: Seq::<u64>::empty(),
                end,
            }),
    {
        Votes { index, threshold, ayes: Vec::new(), nays: Vec::new(), end }
    }

    /// The members that approved so far.
    pub fn ayes(&self) -> (r: &Vec<u64>)
        ensures
            r@ == self@.ayes,
    {
        &self.ayes
    }

    /// The members that rejected so far.
    pub fn nays(&self) -> (r: &Vec<u64>)
        ensures
            r@ == self@.nays,
    {
        &self.nays
    }

    /// The number of approval votes needed to pass the motion.
    pub fn threshold(&self) -> (r: MemberCount)
        ensures
            r == self@.threshold,
    {
        self.threshold
    }

    /// The hard end of the voting period.
    pub fn end(&self) -> (r: u64)
        ensures
            r == self@.end,
    {
        self.end
    }

    /// Whether the prime member, if there is one, voted aye.
    pub fn prime_vote(&self, prime: Option<u64>) -> (r: Option<bool>)
        ensures
            r == (match prime {
                Option::Some(who) => Option::Some(self@.ayes.contains(who)),
                Option::None => Option::<bool>::None,
            }),
    {
        match prime {
            Option::Some(who) => Option::Some(is_member(&self.ayes, who)),
            Option::None => Option::None,
        }
    }

    /// Add an aye or nay vote for `who`; the result says whether it was
    /// the member's first vote on this motion.
    pub fn vote(&mut self, who: u64, index: ProposalIndex, approve: bool) -> (r: Result<
        bool,
        MotionError,
    >)
        ensures
            (final(self)@, r) == vote_spec(old(self)@, who, index, approve),
    {
        if self.index != index {
            return Result::Err(MotionError::WrongIndex);
        }
        let position_yes = position_of(&self.ayes, who);
        let position_no = position_of(&self.nays, who);
        proof {
            lemma_position_characterises(self.ayes@, who);
            lemma_position_characterises(self.nays@, who);
        }
        let is_account_voting_first_time = position_yes.is_none() && position_no.is_none();

        if approve {
            if position_yes.is_none() {
                self.ayes.push(who);
            } else {
                return Result::Err(MotionError::DuplicateVote);
            }
            if let Option::Some(pos) = position_no {
                self.nays.swap_remove(pos);
            }
            proof {
                assert(self.ayes@ == old(self)@.ayes.push(who));
                assert(self.nays@ == without_vote(old(self)@.nays, who));
            }
        } else {
            if position_no.is_none() {
                self.nays.push(who);
            } else {
                return Result::Err(MotionError::DuplicateVote);
            }
            if let Option::Some(pos) = position_yes {
                self.ayes.swap_remove(pos);
            }
        }
        Result::Ok(is_account_voting_first_time)
    }

    /// Decide a close attempt at block `now`, among `seats` members,
    /// with `default` as the absent members' vote. Approval and
    /// disapproval are allowed as soon as enough votes stand; a close
    /// before the end of the voting period is otherwise too early.
    pub fn close_decision(&self, seats: MemberCount, now: u64, default: bool) -> (r: Result<
        CloseVerdict,
        MotionError,
    >)
        requires
            self@.ayes.len() + self@.nays.len() <= seats,
        ensures
            r == close_spec(self@, seats, now, default),
    {
        let yes_votes: MemberCount = self.ayes.len() as MemberCount;
        let no_votes: MemberCount = self.nays.len() as MemberCount;
        if yes_votes >= self.threshold {
            return Result::Ok(CloseVerdict::Approved { yes_votes, no_votes });
        }
        if seats - no_votes < self.threshold {
            return Result::Ok(CloseVerdict::Disapproved { yes_votes, no_votes });
        }
        if now < self.end {
            return Result::Err(MotionError::TooEarly);
        }
        let abstentions: MemberCount = seats - (yes_votes + no_votes);
        if default {
            let yes_total: MemberCount = yes_votes + abstentions;
            if yes_total >= self.threshold {
                Result::Ok(CloseVerdict::Approved { yes_votes: yes_total, no_votes })
            } else {
                Result::Ok(CloseVerdict::Disapproved { yes_votes: yes_total, no_votes })
            }
        } else {
            Result::Ok(CloseVerdict::Disapproved { yes_votes, no_votes: no_votes + abstentions })
        }
    }
}

/// No duplicate entries.
pub open spec fn distinct(s: Seq<u64>) -> bool {
    forall|i: int, j: int| 0 <= i < j < s.len() ==> #[trigger] s[i] != #[trigger] s[j]
}

/// Each side duplicate-free, and no member on both sides.
pub open spec fn vote_integrity(v: VotesView) -> bool {
    &&& distinct(v.ayes)
    &&& distinct(v.nays)
    &&& (forall|i: int| 0 <= i < v.ayes.len() ==> !v.nays.contains(#[trigger] v.ayes[i]))
}

/// `spec_position` finds `who` exactly when the list contains it, and
/// points at an occurrence.
proof fn lemma_position_characterises(s: Seq<u64>, who: u64)
    ensures
        (spec_position(s, who) is Some) == s.contains(who),
        match spec_position(s, who) {
            Option::Some(i) => 0 <= i < s.len() && s[i] == who,
            Option::None => true,
        },
    decreases s.len(),
{
    if s.len() > 0 && s[0] != who {
        lemma_position_characterises(s.drop_first(), who);
        if s.drop_first().contains(who) {
            let k = choose|k: int| 0 <= k < s.drop_first().len() && s.drop_first()[k] == who;
            assert(s[k + 1] == who);
        }
        if s.contains(who) {
            let k = choose|k: int| 0 <= k < s.len() && s[k] == who;
            assert(s.drop_first()[k - 1] == who);
        }
    }
}

/// What stands in a duplicate-free list after one vote is removed: the
/// other members, each exactly where `swap_remove` leaves them, and the
/// removed member nowhere.
proof fn lemma_without_vote_properties(s: Seq<u64>, who: u64)
    requires
        distinct(s),
    ensures
        forall|x: u64| #[trigger] without_vote(s, who).contains(x) ==> s.contains(x),
        !without_vote(s, who).contains(who),
        distinct(without_vote(s, who)),
{
    lemma_position_characterises(s, who);
    match spec_position(s, who) {
        Option::None => {
        },
        Option::Some(i) => {
            let t = without_vote(s, who);
            assert(t == s.update(i, s.last()).drop_last());
            assert forall|k: int| 0 <= k < t.len() implies (s.contains(#[trigger] t[k]) && t[k]
                != who) by {
                if k == i {
                    assert(t[k] == s[s.len() - 1]);
                    assert(s[s.len() - 1] != who || i == s.len() - 1);
                } else {
                    assert(t[k] == s[k]);
                    assert(s[k] != who);
                }
            }
            if t.contains(who) {
                let k = choose|k: int| 0 <= k < t.len() && t[k] == who;
                assert(t[k] == who && t[k] != who);
            }
            assert forall|a: int, b: int| 0 <= a < b < t.len() implies
                #[trigger] t[a] != #[trigger] t[b] by {
                if a == i {
                    assert(t[a] == s[s.len() - 1] && t[b] == s[b]);
                } else if b == i {
                    assert(t[b] == s[s.len() - 1] && t[a] == s[a]);
                } else {
                    assert(t[a] == s[a] && t[b] == s[b]);
                }
            }
        },
    }
}

/// A motion never counts a member on both sides, nor twice on one side:
/// a vote keeps the two lists duplicate-free and disjoint.
pub proof fn lemma_vote_keeps_sides_disjoint(
    v: VotesView,
    who: u64,
    index: ProposalIndex,
    approve: bool,
)
    requires
        vote_integrity(v),
    ensures
        vote_integrity(vote_spec(v, who, index, approve).0),
{
    let v2 = vote_spec(v, who, index, approve).0;
    lemma_position_characterises(v.ayes, who);
    lemma_position_characterises(v.nays, who);
    if v.index == index && approve && spec_position(v.ayes, who) is None {
        lemma_without_vote_properties(v.nays, who);
        assert(v2.ayes == v.ayes.push(who));
        assert forall|j: int| 0 <= j < v2.ayes.len() implies !v2.nays.contains(
            #[trigger] v2.ayes[j],
        ) by {
            if j < v.ayes.len() {
                assert(v2.ayes[j] == v.ayes[j]);
                if v2.nays.contains(v.ayes[j]) {
                    assert(v.nays.contains(v.ayes[j]));
                }
            } else {
                assert(v2.ayes[j] == who);
            }
        }
        assert(distinct(v2.ayes)) by {
            assert(forall|j: int| 0 <= j < v.ayes.len() ==> #[trigger] v.ayes[j] != who);
        }
    } else if v.index == index && !approve && spec_position(v.nays, who) is None {
        lemma_without_vote_properties(v.ayes, who);
        assert(v2.nays == v.nays.push(who));
        assert forall|j: int| 0 <= j < v2.ayes.len() implies !v2.nays.contains(
            #[trigger] v2.ayes[j],
        ) by {
            assert(v.ayes.contains(v2.ayes[j]) && v2.ayes[j] != who);
            if v2.nays.contains(v2.ayes[j]) {
                let k = choose|k: int| 0 <= k < v2.nays.len() && v2.nays[k] == v2.ayes[j];
                if k < v.nays.len() {
                    assert(v.nays.contains(v2.ayes[j]));
                    let a = choose|a: int| 0 <= a < v.ayes.len() && v.ayes[a] == v2.ayes[j];
                    assert(!v.nays.contains(v.ayes[a]));
                }
            }
        }
        assert(distinct(v2.nays)) by {
            assert(forall|j: int| 0 <= j < v.nays.len() ==> #[trigger] v.nays[j] != who);
        }
    }
}

} // verus!
