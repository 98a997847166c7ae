//! Currencies, payment and payout life cycles, and the status order that
//! every state change must respect.

use vstd::prelude::*;

verus! {

/// The two chains the engine watches.
#[derive(Clone, Copy, PartialEq, Eq, Structural, Debug)]
pub enum Currency {
    Btc,
    Eth,
}

/// Life cycle of a payment. `Pending` may move to `Paid`,
/// `InsufficientAmount` or `Expired`; `Paid` may move on to `PaidOut`;
/// nothing moves backwards.
#[derive(Clone, Copy, PartialEq, Eq, Structural, Debug)]
pub enum PaymentStatus {
    Pending,
    Paid,
    InsufficientAmount,
    Expired,
    PaidOut,
}

/// Life cycle of a payout row. The monitor claims a `Pending` row by
/// moving it to `Processing`; the payouter finishes with `Done` or
/// `Failed`.
#[derive(Clone, Copy, PartialEq, Eq, Structural, Debug)]
pub enum PayoutStatus {
    Pending,
    Processing,
    Done,
    Failed,
}

/// What a payout row asks for: forward the funds to the store, or return
/// them to the payer.
#[derive(Clone, Copy, PartialEq, Eq, Structural, Debug)]
pub enum PayoutAction {
    Payout,
    Refund,
}

/// A single allowed step of the payment life cycle. Staying put is
/// always allowed.
pub open spec fn status_step(from: PaymentStatus, to: PaymentStatus) -> bool {
    ||| from == to
    ||| (from == PaymentStatus::Pending && (to == PaymentStatus::Paid
            || to == PaymentStatus::InsufficientAmount
            || to == PaymentStatus::Expired))
    ||| (from == PaymentStatus::Paid && to == PaymentStatus::PaidOut)
}

/// Distance of a status from the start of the life cycle; every allowed
/// step keeps it from shrinking.
pub open spec fn status_rank(s: PaymentStatus) -> int {
    match s {
        PaymentStatus::Pending => 0,
        PaymentStatus::Paid => 1,
        PaymentStatus::InsufficientAmount => 2,
        PaymentStatus::Expired => 2,
        PaymentStatus::PaidOut => 2,
    }
}

/// The payment life cycle is a monotone walk: an allowed step never
/// lowers the rank, a proper step raises it, and no step re-enters
/// `Pending`.
pub proof fn lemma_status_monotone(from: PaymentStatus, to: PaymentStatus)
    requires
        status_step(from, to),
    ensures
        status_rank(to) >= status_rank(from),
        from != to ==> status_rank(to) > status_rank(from),
        to == PaymentStatus::Pending ==> from == PaymentStatus::Pending,
{
}

/// Which Bitcoin network a node serves.
#[derive(Clone, Copy, PartialEq, Eq, Structural, Debug)]
pub enum Network {
    MainNet,
    TestNet,
}

/// Whether two string slices hold the same characters.
pub fn str_eq(a: &str, b: &str) -> (r: bool)
    ensures
        r == (a@ == b@),
{
    let owned_a = String::from_str(a);
    let owned_b = String::from_str(b);
    owned_a == owned_b
}

impl Network {
    /// Reads a configured network name; only `mainnet` and `testnet`
    /// are accepted.
    pub fn from_name(s: &str) -> (r: Result<Network, String>)
        ensures
            r == Ok::<_, String>(Network::MainNet) <==> s@ == "mainnet"@,
            r == Ok::<_, String>(Network::TestNet) <==> s@ == "testnet"@,
            r matches Err(e) ==> e@ == "Invalid value for bitcoin network."@,
    {
        proof {
            reveal_strlit("mainnet");
            reveal_strlit("testnet");
            assert("mainnet"@[0] == 'm' && "testnet"@[0] == 't');
            assert("mainnet"@ != "testnet"@);
        }
        if str_eq(s, "mainnet") {
            Ok(Network::MainNet)
        } else if str_eq(s, "testnet") {
            Ok(Network::TestNet)
        } else {
            Err(String::from_str("Invalid value for bitcoin network."))
        }
    }
}

} // verus!
