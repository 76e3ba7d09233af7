use vstd::prelude::*;

use crate::state::Art;

verus! {

/// The denomination that deposits are counted in and withdrawals paid out in.
pub const NATIVE_DENOM: &'static str = "ucosm";

/// The creation request.
#[derive(Clone, Copy, Debug, PartialEq, Eq, Structural)]
pub struct InstantiateMsg {
    pub count: i32,
    pub royalty_rate: u64,
}

/// An amount of one denomination of the native currency.
#[derive(Clone, Debug)]
pub struct Coin {
    pub denom: String,
    pub amount: u128,
}

/// Who invokes an action, and the funds sent along with it.
#[derive(Clone, Debug)]
pub struct MessageInfo {
    pub sender: String,
    pub funds: Vec<Coin>,
}

/// The mutating actions.
#[derive(Clone, Copy, Debug, PartialEq, Eq, Structural)]
pub enum ExecuteMsg {
    Increment {},
    Reset { count: i32 },
    CreateArt { price: u128, rfid: u64 },
    PurchaseArt { art_id: u64 },
    Deposit {},
    Withdraw { amount: u128 },
}

/// The read-only requests.
#[derive(Clone, Debug)]
pub enum QueryMsg {
    GetCount {},
    GetArt { art_id: u64 },
    GetArtOwner { art_id: u64 },
    GetBalance { addr: String },
}

#[derive(Clone, Copy, Debug, PartialEq, Eq, Structural)]
pub struct GetCountResponse {
    pub count: i32,
}

#[derive(Clone, Copy, Debug, PartialEq, Eq, Structural)]
pub struct GetArtResponse {
    pub art: Art,
}

#[derive(Clone, Debug)]
pub struct GetArtOwnerResponse {
    pub owner: String,
}

#[derive(Clone, Copy, Debug, PartialEq, Eq, Structural)]
pub struct GetBalanceResponse {
    pub balance: u128,
}

/// The answer to a `QueryMsg`, one variant per request.
#[derive(Clone, Debug)]
pub enum QueryResponse {
    Count(GetCountResponse),
    Art(GetArtResponse),
    ArtOwner(GetArtOwnerResponse),
    Balance(GetBalanceResponse),
}

/// The total of the coins in the native denomination.
pub open spec fn native_sum(funds: Seq<Coin>) -> nat
    decreases funds.len(),
{
    if funds.len() == 0 {
        0
    } else {
        native_sum(funds.drop_last()) + if funds.last().denom@ == NATIVE_DENOM@ {
            funds.last().amount as nat
        } else {
            0
        }
    }
}

/// Whether `coin` is in the native denomination.
pub fn is_native(coin: &Coin) -> (r: bool)
    ensures
        r == (coin.denom@ == NATIVE_DENOM@),
{
    let native = NATIVE_DENOM.to_owned();
    coin.denom == native
}

/// `base` plus the native coins of `funds`, or `None` where that exceeds
/// `u128::MAX`.
pub fn add_native_funds(base: u128, funds: &Vec<Coin>) -> (r: Option<u128>)
    ensures
        match r {
            Some(v) => v == base + native_sum(funds@),
            None => base + native_sum(funds@) > u128::MAX,
        },
{
    let mut acc: u128 = base;
    let mut i: usize = 0;
    while i < funds.len()
        invariant
            i <= funds@.len(),
            acc == base + native_sum(funds@.take(i as int)),
        decreases funds@.len() - i,
    {
        proof {
            assert(funds@.take(i as int + 1).drop_last() =~= funds@.take(i as int));
        }
        if is_native(&funds[i]) {
            match acc.checked_add(funds[i].amount) {
                Some(v) => {
                    acc = v;
                },
                None => {
                    proof {
                        lemma_native_sum_prefix(funds@, i as int + 1);
                    }
                    return None;
                },
            }
        }
        i = i + 1;
    }
    proof {
        assert(funds@.take(i as int) =~= funds@);
    }
    Some(acc)
}

/// A prefix of the funds never holds more native coin than the whole.
pub proof fn lemma_native_sum_prefix(funds: Seq<Coin>, n: int)
    requires
        0 <= n <= funds.len(),
    ensures
        native_sum(funds.take(n)) <= native_sum(funds),
    decreases funds.len() - n,
{
    if n < funds.len() {
        lemma_native_sum_prefix(funds, n + 1);
        assert(funds.take(n + 1).drop_last() =~= funds.take(n));
    } else {
        assert(funds.take(n) =~= funds);
    }
}

} // verus!
