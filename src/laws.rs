use vstd::prelude::*;

use crate::contract::{
    art_result, create_post, deposit_post, execute_post, owner_result, purchase_post,
};
use crate::error::ContractError;
use crate::msg::{native_sum, Coin, ExecuteMsg, GetArtOwnerResponse, GetArtResponse, MessageInfo};
use crate::response::Response;
use crate::state::{Art, Ledger};

verus! {

/// No action changes the owner, and none moves the art sequence backwards.
pub proof fn lemma_owner_fixed_sequence_grows(
    pre: Ledger,
    post: Ledger,
    info: MessageInfo,
    msg: ExecuteMsg,
    r: Result<Response, ContractError>,
)
    requires
        execute_post(pre, post, info, msg, r),
    ensures
        post.state.owner == pre.state.owner,
        post.state.art_counter >= pre.state.art_counter,
{
}

/// Two successful deposits by one account add up: the balance grows by the
/// native coins of both, and the first is not overwritten by the second.
pub proof fn lemma_deposits_accumulate(
    l0: Ledger,
    l1: Ledger,
    l2: Ledger,
    account: Seq<char>,
    first: Seq<Coin>,
    second: Seq<Coin>,
    r1: Result<Response, ContractError>,
    r2: Result<Response, ContractError>,
)
    requires
        native_sum(first) > 0,
        native_sum(second) > 0,
        deposit_post(l0, l1, account, first, r1),
        deposit_post(l1, l2, account, second, r2),
    ensures
        r1 is Ok,
        r2 is Ok,
        l2.balance_of(account) == l0.balance_of(account) + native_sum(first) + native_sum(second),
{
}

/// A deposit never lowers the caller's balance: a refused one leaves it, and
/// a successful one adds the native coins sent along to it.
pub proof fn lemma_deposit_never_lowers(
    pre: Ledger,
    post: Ledger,
    account: Seq<char>,
    funds: Seq<Coin>,
    r: Result<Response, ContractError>,
)
    requires
        deposit_post(pre, post, account, funds, r),
    ensures
        post.balance_of(account) >= pre.balance_of(account),
        r is Ok ==> post.balance_of(account) == pre.balance_of(account) + native_sum(funds),
{
}

/// A deposit without native coins fails with `EmptyBalance` and leaves the
/// ledger as it was.
pub proof fn lemma_empty_deposit_refused(
    pre: Ledger,
    post: Ledger,
    account: Seq<char>,
    funds: Seq<Coin>,
    r: Result<Response, ContractError>,
)
    requires
        native_sum(funds) == 0,
        deposit_post(pre, post, account, funds, r),
    ensures
        r == Err::<Response, ContractError>(ContractError::EmptyBalance),
        post == pre,
{
}

/// Minting and then buying: an item minted by anyone but the ledger's owner
/// is held by its minter under the next art id; a buyer whose balance covers
/// the price then buys it, becomes its holder and pays exactly the price.
pub proof fn lemma_mint_then_purchase(
    l0: Ledger,
    l1: Ledger,
    l2: Ledger,
    minter: String,
    buyer: String,
    price: u128,
    rfid: u64,
    r1: Result<Response, ContractError>,
    r2: Result<Response, ContractError>,
)
    requires
        l0.wf(),
        minter@ != l0.state.owner@,
        create_post(l0, l1, minter, price, rfid, r1),
        l1.balance_of(buyer@) >= price,
        purchase_post(l1, l2, buyer, l0.state.art_counter, r2),
    ensures
        r1 is Ok,
        art_result(l1, l0.state.art_counter) == Ok::<GetArtResponse, ContractError>(
            GetArtResponse { art: Art { art_id: l0.state.art_counter, price, rfid } },
        ),
        owner_result(l1, l0.state.art_counter) == Ok::<GetArtOwnerResponse, ContractError>(
            GetArtOwnerResponse { owner: minter },
        ),
        r2 is Ok,
        owner_result(l2, l0.state.art_counter) == Ok::<GetArtOwnerResponse, ContractError>(
            GetArtOwnerResponse { owner: buyer },
        ),
        l2.balance_of(buyer@) == l1.balance_of(buyer@) - price,
{
    let id = l0.state.art_counter as int;
    assert(l1.gallery@[id] == (Art { art_id: l0.state.art_counter, price, rfid }));
    assert(l1.owners@[id] == minter);
}

/// Step `k` of a run is a successful mint.
pub open spec fn mint_step(
    ledgers: Seq<Ledger>,
    minters: Seq<String>,
    prices: Seq<u128>,
    rfids: Seq<u64>,
    results: Seq<Result<Response, ContractError>>,
    k: int,
) -> bool {
    &&& create_post(ledgers[k], ledgers[k + 1], minters[k], prices[k], rfids[k], results[k])
    &&& results[k] is Ok
}

/// A run of successful mints: each ledger comes from the one before it by a
/// mint of `minters[k]` with `prices[k]` and `rfids[k]`, answered by
/// `results[k]`.
pub open spec fn mint_run(
    ledgers: Seq<Ledger>,
    minters: Seq<String>,
    prices: Seq<u128>,
    rfids: Seq<u64>,
    results: Seq<Result<Response, ContractError>>,
) -> bool {
    &&& ledgers.len() == minters.len() + 1
    &&& prices.len() == minters.len()
    &&& rfids.len() == minters.len()
    &&& results.len() == minters.len()
    &&& forall|k: int|
        0 <= k < minters.len() ==> #[trigger] mint_step(ledgers, minters, prices, rfids, results, k)
}

/// The art sequence never repeats: along a run of `n` successful mints the
/// ids handed out, each the art sequence before its mint, strictly increase,
/// and the sequence ends `n` past where it began.
pub proof fn lemma_art_ids_increase(
    ledgers: Seq<Ledger>,
    minters: Seq<String>,
    prices: Seq<u128>,
    rfids: Seq<u64>,
    results: Seq<Result<Response, ContractError>>,
)
    requires
        mint_run(ledgers, minters, prices, rfids, results),
    ensures
        forall|i: int, j: int|
            0 <= i < j < minters.len() ==> #[trigger] ledgers[i].state.art_counter
                < #[trigger] ledgers[j].state.art_counter,
        ledgers.last().state.art_counter == ledgers[0].state.art_counter + minters.len(),
{
    lemma_sequence_advances(ledgers, minters, prices, rfids, results, 0, minters.len() as int);
    assert forall|i: int, j: int| 0 <= i < j < minters.len() implies #[trigger] ledgers[i].state.art_counter
        < #[trigger] ledgers[j].state.art_counter by {
        lemma_sequence_advances(ledgers, minters, prices, rfids, results, i, j);
    }
}

/// Each successful mint moves the art sequence on by one.
proof fn lemma_sequence_advances(
    ledgers: Seq<Ledger>,
    minters: Seq<String>,
    prices: Seq<u128>,
    rfids: Seq<u64>,
    results: Seq<Result<Response, ContractError>>,
    i: int,
    j: int,
)
    requires
        mint_run(ledgers, minters, prices, rfids, results),
        0 <= i <= j <= minters.len(),
    ensures
        ledgers[j].state.art_counter == ledgers[i].state.art_counter + (j - i),
    decreases j - i,
{
    if i < j {
        lemma_sequence_advances(ledgers, minters, prices, rfids, results, i, j - 1);
        assert(mint_step(ledgers, minters, prices, rfids, results, j - 1));
    }
}

} // verus!
