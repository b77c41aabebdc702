use vstd::prelude::*;

verus! {

/// The token accounts an operation moves USDC between.
#[derive(Clone, Copy, PartialEq, Eq, Debug, Structural)]
pub enum Party {
    /// The market's vault, which holds escrow and trade proceeds.
    Vault,
    /// The protocol's fee account.
    FeeRecipient,
    Maker,
    Taker,
    Buyer,
    Seller,
    /// The owner of the order or position that the operation is about.
    Owner,
}

/// One all-or-nothing movement of USDC that an operation asks the custodian
/// to carry out.
#[derive(Clone, Copy, PartialEq, Eq, Debug, Structural)]
pub struct Transfer {
    pub from: Party,
    pub to: Party,
    pub amount: u64,
}

/// What one transfer adds to, or takes from, the balance of `p`.
pub open spec fn flow_of(t: Transfer, p: Party) -> int {
    (if t.to == p {
        t.amount as int
    } else {
        0
    }) - (if t.from == p {
        t.amount as int
    } else {
        0
    })
}

/// The net change to the balance of `p` when all of `ts` are carried out.
pub open spec fn net_flow(ts: Seq<Transfer>, p: Party) -> int
    decreases ts.len(),
{
    if ts.len() == 0 {
        0
    } else {
        net_flow(ts.drop_last(), p) + flow_of(ts.last(), p)
    }
}

pub proof fn lemma_net_flow_push(ts: Seq<Transfer>, t: Transfer, p: Party)
    ensures
        net_flow(ts.push(t), p) == net_flow(ts, p) + flow_of(t, p),
{
    assert(ts.push(t).drop_last() =~= ts);
}

} // verus!
