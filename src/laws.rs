use vstd::prelude::*;
use crate::address::Address;
use crate::state::{bet_verdict, settle_step, with_stake, Bet, DegenError, Poll, DUMP, PUMP, STAGNATE};

verus! {

/// The poll after each bet of `bets` has been taken by it, in order.
pub open spec fn after_bets(p: Poll, bets: Seq<Bet>) -> Poll
    decreases bets.len(),
{
    if bets.len() == 0 {
        p
    } else {
        after_bets(with_stake(p, bets[0].choice, bets[0].amount), bets.drop_first())
    }
}

/// Whether every bet of `bets` is accepted, each by the poll that the ones
/// before it left.
pub open spec fn all_accepted(p: Poll, bets: Seq<Bet>) -> bool
    decreases bets.len(),
{
    if bets.len() == 0 {
        true
    } else {
        &&& bet_verdict(p, bets[0].choice, bets[0].amount) is Ok
        &&& all_accepted(with_stake(p, bets[0].choice, bets[0].amount), bets.drop_first())
    }
}

/// The sum of the amounts of the bets on outcome `c`.
pub open spec fn staked_on(bets: Seq<Bet>, c: u8) -> int
    decreases bets.len(),
{
    if bets.len() == 0 {
        0
    } else {
        (if bets[0].choice == c { bets[0].amount as int } else { 0 }) + staked_on(bets.drop_first(), c)
    }
}

/// The sum of the amounts of all the bets.
pub open spec fn staked(bets: Seq<Bet>) -> int
    decreases bets.len(),
{
    if bets.len() == 0 {
        0
    } else {
        bets[0].amount + staked(bets.drop_first())
    }
}

/// Over any run of accepted stakes, each outcome's total grows by exactly the
/// amounts staked on that outcome, and the three totals together grow by
/// exactly the amounts staked.
pub proof fn lemma_totals_track_bets(p: Poll, bets: Seq<Bet>)
    requires
        all_accepted(p, bets),
    ensures
        after_bets(p, bets).total_pump == p.total_pump + staked_on(bets, PUMP),
        after_bets(p, bets).total_dump == p.total_dump + staked_on(bets, DUMP),
        after_bets(p, bets).total_stagnate == p.total_stagnate + staked_on(bets, STAGNATE),
        after_bets(p, bets).total_staked() == p.total_staked() + staked(bets),
        after_bets(p, bets).settled == p.settled,
        after_bets(p, bets).winning_choice == p.winning_choice,
    decreases bets.len(),
{
    if bets.len() > 0 {
        let next = with_stake(p, bets[0].choice, bets[0].amount);
        lemma_totals_track_bets(next, bets.drop_first());
    }
}

/// Settlement happens once: after a successful settlement, a second attempt
/// by the authority fails with `PollAlreadySettled`, an attempt by anyone else
/// fails too, and no second attempt changes the settled poll.
pub proof fn lemma_settle_once(p: Poll, first: Address, first_price: u64, second: Address, second_price: u64)
    requires
        settle_step(p, first, first_price).1 is Ok,
    ensures
        settle_step(settle_step(p, first, first_price).0, second, second_price).0
            == settle_step(p, first, first_price).0,
        settle_step(settle_step(p, first, first_price).0, second, second_price).1 is Err,
        second@ == p.authority@ ==> settle_step(settle_step(p, first, first_price).0, second, second_price).1
            == Err::<(), DegenError>(DegenError::PollAlreadySettled),
{
}

} // verus!
