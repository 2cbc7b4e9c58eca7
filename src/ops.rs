use vstd::prelude::*;
use crate::address::Address;
use crate::state::{
    bet_verdict, fresh_poll, is_outcome, outcome_of, settle_step, winning_choice_for, with_stake, Bet,
    DegenError, Poll, DUMP, PUMP,
};

verus! {

/// The records that poll creation works on.
#[derive(Clone, Copy, Debug)]
pub struct CreatePoll {
    /// The record to initialise.
    pub poll: Poll,
    /// The creator, who becomes the poll's authority.
    pub authority: Address,
    /// The escrow account that will hold the stakes.
    pub poll_vault: Address,
}

/// The records that placing a stake works on.
#[derive(Clone, Copy, Debug)]
pub struct PlaceBet {
    /// The poll staked on.
    pub poll: Poll,
    /// The poll's identity, recorded in the bet.
    pub poll_key: Address,
    /// The record to initialise.
    pub bet: Bet,
    /// The staker, who funds the stake.
    pub user: Address,
    /// The escrow account that receives the stake.
    pub poll_vault: Address,
}

/// The records that settlement works on.
#[derive(Clone, Copy, Debug)]
pub struct SettlePoll {
    /// The poll to settle.
    pub poll: Poll,
    /// The caller, who must be the poll's authority.
    pub authority: Address,
}

/// A movement of native currency that an accepted stake asks for.
#[derive(Clone, Copy, Debug)]
pub struct Transfer {
    pub from: Address,
    pub to: Address,
    pub lamports: u64,
}

/// Initialises `ctx.poll` for a new round owned by `ctx.authority`.
pub fn create_poll(ctx: &mut CreatePoll, start_price: u64, end_time: i64) -> (r: Result<(), DegenError>)
    ensures
        r is Ok,
        final(ctx).poll == fresh_poll(old(ctx).authority, start_price, end_time),
        final(ctx).poll.wf(),
        final(ctx).authority == old(ctx).authority,
        final(ctx).poll_vault == old(ctx).poll_vault,
{
    ctx.poll = Poll {
        authority: ctx.authority,
        start_price,
        end_time,
        total_pump: 0,
        total_dump: 0,
        total_stagnate: 0,
        settled: false,
        winning_choice: 0,
    };
    Ok(())
}

/// Records a stake of `amount` on `choice` by `ctx.user` and adds it to the
/// poll's total for that choice. On success the returned transfer, from the
/// user to the vault, must be carried out, and the updated records kept only
/// if it succeeds. On failure nothing changes.
pub fn place_bet(ctx: &mut PlaceBet, choice: u8, amount: u64) -> (r: Result<Transfer, DegenError>)
    ensures
        !is_outcome(choice) ==> r == Err::<Transfer, DegenError>(DegenError::InvalidChoice),
        is_outcome(choice) && amount == 0 ==> r == Err::<Transfer, DegenError>(DegenError::InvalidAmount),
        is_outcome(choice) && amount > 0 && old(ctx).poll.settled
            ==> r == Err::<Transfer, DegenError>(DegenError::PollAlreadySettled),
        match bet_verdict(old(ctx).poll, choice, amount) {
            Err(e) => r == Err::<Transfer, DegenError>(e) && *final(ctx) == *old(ctx),
            Ok(_) => {
                &&& r == Ok::<Transfer, DegenError>(
                    (Transfer { from: old(ctx).user, to: old(ctx).poll_vault, lamports: amount }),
                )
                &&& final(ctx).poll == with_stake(old(ctx).poll, choice, amount)
                &&& final(ctx).bet == (Bet {
                    user: old(ctx).user,
                    poll: old(ctx).poll_key,
                    choice,
                    amount,
                    claimed: false,
                })
                &&& final(ctx).poll_key == old(ctx).poll_key
                &&& final(ctx).user == old(ctx).user
                &&& final(ctx).poll_vault == old(ctx).poll_vault
            },
        },
        old(ctx).poll.wf() ==> final(ctx).poll.wf(),
{
    if !(choice >= 1 && choice <= 3) {
        return Err(DegenError::InvalidChoice);
    }
    if amount == 0 {
        return Err(DegenError::InvalidAmount);
    }
    if ctx.poll.settled {
        return Err(DegenError::PollAlreadySettled);
    }
    let current: u64 = if choice == PUMP {
        ctx.poll.total_pump
    } else if choice == DUMP {
        ctx.poll.total_dump
    } else {
        ctx.poll.total_stagnate
    };
    if amount > u64::MAX - current {
        return Err(DegenError::TotalOverflow);
    }
    ctx.bet = Bet { user: ctx.user, poll: ctx.poll_key, choice, amount, claimed: false };
    if choice == PUMP {
        ctx.poll.total_pump = current + amount;
    } else if choice == DUMP {
        ctx.poll.total_dump = current + amount;
    } else {
        ctx.poll.total_stagnate = current + amount;
    }
    Ok(Transfer { from: ctx.user, to: ctx.poll_vault, lamports: amount })
}

/// Settles the poll against `end_price` if `ctx.authority` is its authority
/// and it is not settled yet. On failure nothing changes.
pub fn settle_poll(ctx: &mut SettlePoll, end_price: u64) -> (r: Result<(), DegenError>)
    ensures
        (final(ctx).poll, r) == settle_step(old(ctx).poll, old(ctx).authority, end_price),
        final(ctx).authority == old(ctx).authority,
        old(ctx).authority@ != old(ctx).poll.authority@ ==> {
            &&& r == Err::<(), DegenError>(DegenError::AuthorityMismatch)
            &&& final(ctx).poll == old(ctx).poll
        },
        r is Ok ==> final(ctx).poll.wf() && final(ctx).poll.winning_choice
            == outcome_of(old(ctx).poll.start_price, end_price),
        old(ctx).poll.wf() ==> final(ctx).poll.wf(),
{
    if !ctx.authority.same_as(&ctx.poll.authority) {
        return Err(DegenError::AuthorityMismatch);
    }
    if ctx.poll.settled {
        return Err(DegenError::PollAlreadySettled);
    }
    ctx.poll.winning_choice = winning_choice_for(ctx.poll.start_price, end_price);
    ctx.poll.settled = true;
    Ok(())
}

} // verus!
