use vstd::prelude::*;
use crate::address::Address;

verus! {

/// Outcome code: the price rose beyond the threshold.
pub const PUMP: u8 = 1;

/// Outcome code: the price fell beyond the threshold.
pub const DUMP: u8 = 2;

/// Outcome code: the price moved within the threshold.
pub const STAGNATE: u8 = 3;

/// Why an operation was rejected. A rejected operation changes nothing.
#[derive(Clone, Copy, Debug, PartialEq, Eq, Structural)]
pub enum DegenError {
    /// The choice is not one of pump (1), dump (2) or stagnate (3).
    InvalidChoice,
    /// The stake is zero.
    InvalidAmount,
    /// The poll has already been settled.
    PollAlreadySettled,
    /// The caller is not the poll's authority.
    AuthorityMismatch,
    /// The stake would carry a per-outcome total past `u64::MAX`.
    TotalOverflow,
}

/// One wagering round.
#[derive(Clone, Copy, Debug)]
pub struct Poll {
    pub authority: Address,
    pub start_price: u64,
    pub end_time: i64,
    pub total_pump: u64,
    pub total_dump: u64,
    pub total_stagnate: u64,
    pub settled: bool,
    pub winning_choice: u8,
}

/// One participant's stake on one outcome of one poll.
#[derive(Clone, Copy, Debug)]
pub struct Bet {
    pub user: Address,
    pub poll: Address,
    pub choice: u8,
    pub amount: u64,
    pub claimed: bool,
}

pub open spec fn is_outcome(c: u8) -> bool {
    c == PUMP || c == DUMP || c == STAGNATE
}

impl Poll {
    /// An unsettled poll carries no outcome; a settled one carries a valid one.
    pub open spec fn wf(&self) -> bool {
        if self.settled {
            is_outcome(self.winning_choice)
        } else {
            self.winning_choice == 0
        }
    }

    /// The running total staked on outcome `c`.
    pub open spec fn total_for(&self, c: u8) -> int {
        if c == PUMP {
            self.total_pump as int
        } else if c == DUMP {
            self.total_dump as int
        } else if c == STAGNATE {
            self.total_stagnate as int
        } else {
            0
        }
    }

    /// The sum of all three running totals.
    pub open spec fn total_staked(&self) -> int {
        self.total_pump + self.total_dump + self.total_stagnate
    }
}

/// A poll as it stands right after creation.
pub open spec fn fresh_poll(authority: Address, start_price: u64, end_time: i64) -> Poll {
    Poll {
        authority,
        start_price,
        end_time,
        total_pump: 0,
        total_dump: 0,
        total_stagnate: 0,
        settled: false,
        winning_choice: 0,
    }
}

/// Whether a stake of `amount` on `choice` is taken by poll `p`, and if not, why.
/// The checks come in this order: choice, amount, settlement, room in the total.
pub open spec fn bet_verdict(p: Poll, choice: u8, amount: u64) -> Result<(), DegenError> {
    if !is_outcome(choice) {
        Err(DegenError::InvalidChoice)
    } else if amount == 0 {
        Err(DegenError::InvalidAmount)
    } else if p.settled {
        Err(DegenError::PollAlreadySettled)
    } else if p.total_for(choice) + amount > u64::MAX {
        Err(DegenError::TotalOverflow)
    } else {
        Ok(())
    }
}

/// Poll `p` with `amount` added to the total of `choice`.
pub open spec fn with_stake(p: Poll, choice: u8, amount: u64) -> Poll {
    if choice == PUMP {
        Poll { total_pump: (p.total_pump + amount) as u64, ..p }
    } else if choice == DUMP {
        Poll { total_dump: (p.total_dump + amount) as u64, ..p }
    } else if choice == STAGNATE {
        Poll { total_stagnate: (p.total_stagnate + amount) as u64, ..p }
    } else {
        p
    }
}

/// The absolute difference of two prices.
pub open spec fn price_diff(a: u64, b: u64) -> int {
    if a > b {
        a - b
    } else {
        b - a
    }
}

/// The outcome that an end price decides against a start price: stagnate when
/// the move is at most one percent of the start price (rounded down), else pump
/// when the price rose and dump when it fell.
pub open spec fn outcome_of(start_price: u64, end_price: u64) -> u8 {
    if price_diff(end_price, start_price) <= start_price / 100 {
        STAGNATE
    } else if end_price > start_price {
        PUMP
    } else {
        DUMP
    }
}

/// Whether `caller` may settle poll `p` now, and if not, why. The authority
/// is checked before the settlement state.
pub open spec fn settle_verdict(p: Poll, caller: Address) -> Result<(), DegenError> {
    if caller@ != p.authority@ {
        Err(DegenError::AuthorityMismatch)
    } else if p.settled {
        Err(DegenError::PollAlreadySettled)
    } else {
        Ok(())
    }
}

/// Poll `p` settled against `end_price`.
pub open spec fn settled_at(p: Poll, end_price: u64) -> Poll {
    Poll { settled: true, winning_choice: outcome_of(p.start_price, end_price), ..p }
}

/// What one settlement attempt by `caller` leaves: the poll and the result.
pub open spec fn settle_step(p: Poll, caller: Address, end_price: u64) -> (Poll, Result<(), DegenError>) {
    match settle_verdict(p, caller) {
        Ok(_) => (settled_at(p, end_price), Ok(())),
        Err(e) => (p, Err(e)),
    }
}

/// Computes the winning outcome for a start and an end price.
pub fn winning_choice_for(start_price: u64, end_price: u64) -> (r: u8)
    ensures
        r == outcome_of(start_price, end_price),
        is_outcome(r),
{
    let diff: u64 = if end_price > start_price {
        end_price - start_price
    } else {
        start_price - end_price
    };
    let threshold: u64 = start_price / 100;
    if diff <= threshold {
        STAGNATE
    } else if end_price > start_price {
        PUMP
    } else {
        DUMP
    }
}

} // verus!
