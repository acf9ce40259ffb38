//! The escrow accountant: pure computation of who is owed how much.
//!
//! The accountant never moves funds. Given a settled outcome it returns a
//! payout plan, a list of (recipient, amount) pairs, which the surrounding
//! system's ledger executes.

use vstd::prelude::*;

use crate::state::PlayerId;

verus! {

/// One owed transfer of a payout plan.
#[derive(Clone, Copy, Debug, PartialEq, Eq, Structural)]
pub struct PayoutEntry {
    /// Who the amount is owed to.
    pub recipient: PlayerId,
    /// How much is owed.
    pub amount: u64,
}

/// How a match was settled, from the accountant's point of view.
#[derive(Clone, Copy, Debug, PartialEq, Eq, Structural)]
pub enum Settlement {
    /// The player with the given index (0 or 1) completed four in a row.
    Won(u8),
    /// The board filled up with no win.
    Drawn,
    /// The creator cancelled before anyone joined.
    Cancelled,
}

/// The sum of the amounts owed by a payout plan.
pub open spec fn plan_total(plan: Seq<PayoutEntry>) -> int
    decreases plan.len(),
{
    if plan.len() == 0 {
        0
    } else {
        plan[0].amount + plan_total(plan.drop_first())
    }
}

/// Computes the payout plan for a settled match with the given participants
/// and total stake.
///
/// - A win pays the full stake to the winner.
/// - A draw pays `stake / 2` (integer division) to each player; on an odd
///   stake the two halves deliberately leave one unit unaccounted for, and
///   the total clause below states exactly that. Stakes fixed at creation
///   are always even, so no unit is lost along that path.
/// - A cancellation refunds `stake / 2` to the creator: the stake was fixed
///   as twice the creator's commitment, and at cancellation only the
///   creator has contributed.
pub fn payout_plan(outcome: Settlement, player0: PlayerId, player1: PlayerId, stake: u64) -> (plan:
    Vec<PayoutEntry>)
    requires
        outcome matches Settlement::Won(w) ==> w < 2,
    ensures
        (outcome matches Settlement::Won(w) ==> plan@.len() == 1 && plan@[0].recipient == (if w
            == 0 {
            player0
        } else {
            player1
        }) && plan@[0].amount == stake),
        outcome is Drawn ==> plan@.len() == 2 && plan@[0].recipient == player0
            && plan@[0].amount == stake / 2 && plan@[1].recipient == player1 && plan@[1].amount
            == stake / 2,
        outcome is Cancelled ==> plan@.len() == 1 && plan@[0].recipient == player0
            && plan@[0].amount == stake / 2,
        plan_total(plan@) == (match outcome {
            Settlement::Won(_) => stake as int,
            Settlement::Drawn => stake - stake % 2,
            Settlement::Cancelled => (stake / 2) as int,
        }),
{
    let mut plan: Vec<PayoutEntry> = Vec::new();
    match outcome {
        Settlement::Won(w) => {
            let recipient = if w == 0 {
                player0
            } else {
                player1
            };
            plan.push(PayoutEntry { recipient, amount: stake });
        },
        Settlement::Drawn => {
            plan.push(PayoutEntry { recipient: player0, amount: stake / 2 });
            plan.push(PayoutEntry { recipient: player1, amount: stake / 2 });
        },
        Settlement::Cancelled => {
            plan.push(PayoutEntry { recipient: player0, amount: stake / 2 });
        },
    }
    proof {
        lemma_plan_total_small(plan@);
    }
    plan
}

/// Unfolds `plan_total` for the one- and two-entry plans the accountant
/// builds.
proof fn lemma_plan_total_small(plan: Seq<PayoutEntry>)
    requires
        plan.len() <= 2,
    ensures
        plan.len() == 1 ==> plan_total(plan) == plan[0].amount,
        plan.len() == 2 ==> plan_total(plan) == plan[0].amount + plan[1].amount,
{
    if plan.len() == 1 {
        assert(plan_total(plan.drop_first()) == 0);
        assert(plan_total(plan) == plan[0].amount + plan_total(plan.drop_first()));
    } else if plan.len() == 2 {
        let rest = plan.drop_first();
        assert(rest.len() == 1);
        assert(rest[0] == plan[1]);
        assert(plan_total(rest.drop_first()) == 0);
        assert(plan_total(rest) == plan[1].amount);
    }
}

} // verus!
