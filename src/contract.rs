use vstd::prelude::*;

use crate::error::ContractError;
use crate::msg::{
    add_native_funds, native_sum, Coin, ExecuteMsg, GetArtOwnerResponse, GetArtResponse,
    GetBalanceResponse, GetCountResponse, InstantiateMsg, MessageInfo, QueryMsg, QueryResponse,
    NATIVE_DENOM,
};
use crate::response::{
    attrs, decimal, i32_text, sends_native, signed_decimal, u128_text, BankMsg, Response,
};
use crate::state::{Art, Ledger, State};

verus! {

/// The counter after one increment: it wraps from the largest `i32` to the
/// smallest, so that incrementing always succeeds.
pub open spec fn next_count(c: i32) -> i32 {
    if c == i32::MAX {
        i32::MIN
    } else {
        (c + 1) as i32
    }
}

/// `l` with the counter set to `c` and nothing else changed.
pub open spec fn with_count(l: Ledger, c: i32) -> Ledger {
    Ledger { state: State { count: c, ..l.state }, ..l }
}

/// A successful response with no effect and exactly the given audit trail.
pub open spec fn acknowledged(
    r: Result<Response, ContractError>,
    trail: Seq<(Seq<char>, Seq<char>)>,
) -> bool {
    match r {
        Ok(resp) => resp.messages@.len() == 0 && attrs(resp) == trail,
        Err(_) => false,
    }
}

pub open spec fn increment_post(pre: Ledger, post: Ledger, r: Result<Response, ContractError>) -> bool {
    &&& post == with_count(pre, next_count(pre.state.count))
    &&& acknowledged(r, seq![("action"@, "increment"@)])
}

pub open spec fn reset_post(
    pre: Ledger,
    post: Ledger,
    sender: Seq<char>,
    count: i32,
    r: Result<Response, ContractError>,
) -> bool {
    if sender != pre.state.owner@ {
        r == Err::<Response, ContractError>(ContractError::Unauthorized) && post == pre
    } else {
        post == with_count(pre, count) && acknowledged(r, seq![("action"@, "reset"@)])
    }
}

/// The balance that `sender` would hold after depositing `funds`.
pub open spec fn deposited_total(pre: Ledger, sender: Seq<char>, funds: Seq<Coin>) -> nat {
    (pre.balance_of(sender) + native_sum(funds)) as nat
}

pub open spec fn deposit_post(
    pre: Ledger,
    post: Ledger,
    sender: Seq<char>,
    funds: Seq<Coin>,
    r: Result<Response, ContractError>,
) -> bool {
    let total = deposited_total(pre, sender, funds);
    if native_sum(funds) == 0 {
        r == Err::<Response, ContractError>(ContractError::EmptyBalance) && post == pre
    } else {
        &&& total <= u128::MAX
        &&& post.state == pre.state
        &&& post.gallery@ == pre.gallery@
        &&& post.owners@ == pre.owners@
        &&& post.balance_view() == pre.balance_view().insert(sender, total as u128)
        &&& acknowledged(
            r,
            seq![("action"@, "deposit"@), ("account"@, sender), ("amount"@, decimal(total))],
        )
    }
}

pub open spec fn withdraw_post(
    pre: Ledger,
    post: Ledger,
    sender: Seq<char>,
    amount: u128,
    r: Result<Response, ContractError>,
) -> bool {
    &&& post == pre
    &&& if amount > pre.balance_of(sender) {
        r == Err::<Response, ContractError>(ContractError::InsufficientBalance)
    } else {
        match r {
            Ok(resp) => sends_native(resp, sender, amount) && attrs(resp) == seq![
                ("action"@, "withdraw"@),
                ("sender"@, sender),
            ],
            Err(_) => false,
        }
    }
}

pub open spec fn create_post(
    pre: Ledger,
    post: Ledger,
    sender: String,
    price: u128,
    rfid: u64,
    r: Result<Response, ContractError>,
) -> bool {
    let id = pre.state.art_counter;
    if sender@ == pre.state.owner@ {
        r == Err::<Response, ContractError>(ContractError::Unauthorized) && post == pre
    } else {
        &&& post.state.art_counter == id + 1
        &&& post.state == (State { art_counter: (id + 1) as u64, ..pre.state })
        &&& post.gallery@ == pre.gallery@.push(Art { art_id: id, price, rfid })
        &&& post.owners@ == pre.owners@.push(sender)
        &&& post.balances@ == pre.balances@
        &&& acknowledged(r, seq![("action"@, "create"@), ("art_id"@, decimal(id as nat))])
    }
}

pub open spec fn purchase_post(
    pre: Ledger,
    post: Ledger,
    sender: String,
    art_id: u64,
    r: Result<Response, ContractError>,
) -> bool {
    if art_id >= pre.gallery@.len() {
        r == Err::<Response, ContractError>(ContractError::NotFound) && post == pre
    } else {
        let price = pre.gallery@[art_id as int].price;
        let held = pre.balance_of(sender@);
        if held < price {
            r == Err::<Response, ContractError>(ContractError::InsufficientBalance) && post == pre
        } else {
            &&& post.state == pre.state
            &&& post.gallery@ == pre.gallery@
            &&& post.owners@ == pre.owners@.update(art_id as int, sender)
            &&& post.balance_view() == pre.balance_view().insert(sender@, (held - price) as u128)
            &&& acknowledged(
                r,
                seq![("action"@, "purchase"@), ("art_id"@, decimal(art_id as nat))],
            )
        }
    }
}

/// What an action needs beyond a well-formed ledger: the deposited balance
/// fits in a `u128`, and the art sequence has a next value.
pub open spec fn execute_admits(l: Ledger, info: MessageInfo, msg: ExecuteMsg) -> bool {
    &&& l.wf()
    &&& match msg {
        ExecuteMsg::Deposit {  } => deposited_total(l, info.sender@, info.funds@) <= u128::MAX,
        ExecuteMsg::CreateArt { .. } => l.state.art_counter < u64::MAX,
        _ => true,
    }
}

pub open spec fn execute_post(
    pre: Ledger,
    post: Ledger,
    info: MessageInfo,
    msg: ExecuteMsg,
    r: Result<Response, ContractError>,
) -> bool {
    match msg {
        ExecuteMsg::Increment {  } => increment_post(pre, post, r),
        ExecuteMsg::Reset { count } => reset_post(pre, post, info.sender@, count, r),
        ExecuteMsg::Deposit {  } => deposit_post(pre, post, info.sender@, info.funds@, r),
        ExecuteMsg::Withdraw { amount } => withdraw_post(pre, post, info.sender@, amount, r),
        ExecuteMsg::CreateArt { price, rfid } => create_post(pre, post, info.sender, price, rfid, r),
        ExecuteMsg::PurchaseArt { art_id } => purchase_post(pre, post, info.sender, art_id, r),
    }
}

/// The ledger and response of a creation: the caller becomes the owner, the
/// counter starts at `msg.count`, the art sequence at zero, and every table
/// is empty.
pub open spec fn instantiate_post(r: (Ledger, Response), info: MessageInfo, msg: InstantiateMsg) -> bool {
    &&& r.0.wf()
    &&& r.0.state == (State {
        count: msg.count,
        owner: info.sender,
        art_counter: 0,
        royalty_rate: msg.royalty_rate,
    })
    &&& r.0.gallery@.len() == 0
    &&& r.0.owners@.len() == 0
    &&& r.0.balances@.len() == 0
    &&& r.1.messages@.len() == 0
    &&& attrs(r.1) == seq![
        ("method"@, "instantiate"@),
        ("owner"@, info.sender@),
        ("count"@, signed_decimal(msg.count as int)),
        ("art_counter"@, decimal(0)),
        ("royalty_rate"@, decimal(msg.royalty_rate as nat)),
    ]
}

/// Creates the ledger: the caller becomes the owner, the counter starts at
/// `msg.count`, the art sequence at zero, and every table is empty.
pub fn instantiate(info: &MessageInfo, msg: InstantiateMsg) -> (r: (Ledger, Response))
    ensures
        instantiate_post(r, *info, msg),
{
    let state = State {
        count: msg.count,
        owner: info.sender.clone(),
        art_counter: 0,
        royalty_rate: msg.royalty_rate,
    };
    let ledger = Ledger { state, gallery: Vec::new(), owners: Vec::new(), balances: Vec::new() };
    let resp = Response::new().add_attribute("method", "instantiate".to_owned()).add_attribute(
        "owner",
        info.sender.clone(),
    ).add_attribute("count", i32_text(msg.count)).add_attribute("art_counter", u128_text(0)).add_attribute(
        "royalty_rate",
        u128_text(msg.royalty_rate as u128),
    );
    assert(attrs(resp) == seq![
        ("method"@, "instantiate"@),
        ("owner"@, info.sender@),
        ("count"@, signed_decimal(msg.count as int)),
        ("art_counter"@, decimal(0)),
        ("royalty_rate"@, decimal(msg.royalty_rate as nat)),
    ]);
    (ledger, resp)
}

/// Creates the ledger where no configuration is stored yet. Where one is
/// (`stored`), the system was created before: the request is refused with
/// `AlreadyInitialized` and no ledger is handed back to be written.
pub fn instantiate_once(
    stored: &Option<State>,
    info: &MessageInfo,
    msg: InstantiateMsg,
) -> (r: Result<(Ledger, Response), ContractError>)
    ensures
        stored is Some ==> r == Err::<(Ledger, Response), ContractError>(
            ContractError::AlreadyInitialized,
        ),
        stored is None ==> match r {
            Ok(created) => instantiate_post(created, *info, msg),
            Err(_) => false,
        },
{
    match stored {
        Some(_) => Err(ContractError::AlreadyInitialized),
        None => Ok(instantiate(info, msg)),
    }
}

/// Applies one mutating action on behalf of `info.sender`.
pub fn execute(ledger: &mut Ledger, info: &MessageInfo, msg: ExecuteMsg) -> (r: Result<
    Response,
    ContractError,
>)
    requires
        execute_admits(*old(ledger), *info, msg),
    ensures
        final(ledger).wf(),
        execute_post(*old(ledger), *final(ledger), *info, msg, r),
{
    match msg {
        ExecuteMsg::Increment {  } => increment(ledger),
        ExecuteMsg::Reset { count } => reset(ledger, info, count),
        ExecuteMsg::Deposit {  } => deposit(ledger, info),
        ExecuteMsg::Withdraw { amount } => withdraw(ledger, info, amount),
        ExecuteMsg::CreateArt { price, rfid } => create(ledger, info, price, rfid),
        ExecuteMsg::PurchaseArt { art_id } => purchase(ledger, info, art_id),
    }
}

/// Adds one to the counter, wrapping at the end of the `i32` range.
pub fn increment(ledger: &mut Ledger) -> (r: Result<Response, ContractError>)
    requires
        old(ledger).wf(),
    ensures
        final(ledger).wf(),
        increment_post(*old(ledger), *final(ledger), r),
{
    ledger.state.count = ledger.state.count.wrapping_add(1);
    Ok(Response::new().add_attribute("action", "increment".to_owned()))
}

/// Sets the counter; only the owner may.
pub fn reset(ledger: &mut Ledger, info: &MessageInfo, count: i32) -> (r: Result<
    Response,
    ContractError,
>)
    requires
        old(ledger).wf(),
    ensures
        final(ledger).wf(),
        reset_post(*old(ledger), *final(ledger), info.sender@, count, r),
{
    if info.sender != ledger.state.owner {
        return Err(ContractError::Unauthorized);
    }
    ledger.state.count = count;
    Ok(Response::new().add_attribute("action", "reset".to_owned()))
}

/// Whether depositing `info.funds` keeps the caller's balance within `u128`.
pub fn deposit_fits(ledger: &Ledger, info: &MessageInfo) -> (r: bool)
    requires
        ledger.wf(),
    ensures
        r == (deposited_total(*ledger, info.sender@, info.funds@) <= u128::MAX),
{
    let held = ledger.load_balance(&info.sender);
    add_native_funds(held, &info.funds).is_some()
}

/// Credits the caller with the native coins sent along; fails when no
/// native coin came with the call, whatever the caller already holds.
pub fn deposit(ledger: &mut Ledger, info: &MessageInfo) -> (r: Result<Response, ContractError>)
    requires
        old(ledger).wf(),
        deposited_total(*old(ledger), info.sender@, info.funds@) <= u128::MAX,
    ensures
        final(ledger).wf(),
        deposit_post(*old(ledger), *final(ledger), info.sender@, info.funds@, r),
{
    let held = ledger.load_balance(&info.sender);
    // The precondition rules out `None`; the arm only keeps the match total.
    let balance = match add_native_funds(held, &info.funds) {
        Some(v) => v,
        None => {
            return Err(ContractError::EmptyBalance);
        },
    };
    if balance == held {
        return Err(ContractError::EmptyBalance);
    }
    ledger.save_balance(&info.sender, balance);
    let r = Response::new().add_attribute("action", "deposit".to_owned()).add_attribute(
        "account",
        info.sender.clone(),
    ).add_attribute("amount", u128_text(balance));
    assert(attrs(r) == seq![
        ("action"@, "deposit"@),
        ("account"@, info.sender@),
        ("amount"@, decimal(balance as nat)),
    ]);
    Ok(r)
}

/// Pays `amount` out to the caller when the caller's balance covers it. The
/// balance itself is left as it is: the ledger does not debit withdrawals.
pub fn withdraw(ledger: &Ledger, info: &MessageInfo, amount: u128) -> (r: Result<
    Response,
    ContractError,
>)
    requires
        ledger.wf(),
    ensures
        withdraw_post(*ledger, *ledger, info.sender@, amount, r),
{
    let held = ledger.load_balance(&info.sender);
    if amount > held {
        return Err(ContractError::InsufficientBalance);
    }
    let coin = Coin { denom: NATIVE_DENOM.to_owned(), amount };
    let coins = vec![coin];
    let send = BankMsg::Send { to_address: info.sender.clone(), amount: coins };
    let r = Response::new().add_attribute("action", "withdraw".to_owned()).add_attribute(
        "sender",
        info.sender.clone(),
    ).add_message(send);
    assert(attrs(r) == seq![("action"@, "withdraw"@), ("sender"@, info.sender@)]);
    assert(r.messages@[0] == send);
    Ok(r)
}

/// Mints an art item with the next art id, held by the caller. The owner of
/// the ledger may not mint.
pub fn create(ledger: &mut Ledger, info: &MessageInfo, price: u128, rfid: u64) -> (r: Result<
    Response,
    ContractError,
>)
    requires
        old(ledger).wf(),
        old(ledger).state.art_counter < u64::MAX,
    ensures
        final(ledger).wf(),
        create_post(*old(ledger), *final(ledger), info.sender, price, rfid, r),
{
    if ledger.state.owner == info.sender {
        return Err(ContractError::Unauthorized);
    }
    let art_id = ledger.state.art_counter;
    let art_data = Art { art_id, price, rfid };
    ledger.gallery.push(art_data);
    ledger.owners.push(info.sender.clone());
    ledger.state.art_counter = art_id + 1;
    let r = Response::new().add_attribute("action", "create".to_owned()).add_attribute(
        "art_id",
        u128_text(art_id as u128),
    );
    assert(attrs(r) == seq![("action"@, "create"@), ("art_id"@, decimal(art_id as nat))]);
    Ok(r)
}

/// Buys an art item: the caller pays its price out of the caller's balance
/// and becomes its holder. The previous holder is not credited.
pub fn purchase(ledger: &mut Ledger, info: &MessageInfo, art_id: u64) -> (r: Result<
    Response,
    ContractError,
>)
    requires
        old(ledger).wf(),
    ensures
        final(ledger).wf(),
        purchase_post(*old(ledger), *final(ledger), info.sender, art_id, r),
{
    let held = ledger.load_balance(&info.sender);
    if art_id as usize >= ledger.gallery.len() || art_id >= ledger.state.art_counter {
        return Err(ContractError::NotFound);
    }
    let price = ledger.gallery[art_id as usize].price;
    if held < price {
        return Err(ContractError::InsufficientBalance);
    }
    ledger.save_balance(&info.sender, held - price);
    ledger.owners.set(art_id as usize, info.sender.clone());
    let r = Response::new().add_attribute("action", "purchase".to_owned()).add_attribute(
        "art_id",
        u128_text(art_id as u128),
    );
    assert(attrs(r) == seq![("action"@, "purchase"@), ("art_id"@, decimal(art_id as nat))]);
    Ok(r)
}

/// The answer to `getArt`.
pub open spec fn art_result(l: Ledger, art_id: u64) -> Result<GetArtResponse, ContractError> {
    if art_id < l.gallery@.len() {
        Ok(GetArtResponse { art: l.gallery@[art_id as int] })
    } else {
        Err(ContractError::NotFound)
    }
}

/// The answer to `getArtOwner`.
pub open spec fn owner_result(l: Ledger, art_id: u64) -> Result<
    GetArtOwnerResponse,
    ContractError,
> {
    if art_id < l.owners@.len() {
        Ok(GetArtOwnerResponse { owner: l.owners@[art_id as int] })
    } else {
        Err(ContractError::NotFound)
    }
}

/// The answer to a read request.
pub open spec fn query_result(l: Ledger, msg: QueryMsg) -> Result<QueryResponse, ContractError> {
    match msg {
        QueryMsg::GetCount {  } => Ok(QueryResponse::Count(GetCountResponse { count: l.state.count })),
        QueryMsg::GetArt { art_id } => match art_result(l, art_id) {
            Ok(a) => Ok(QueryResponse::Art(a)),
            Err(e) => Err(e),
        },
        QueryMsg::GetArtOwner { art_id } => match owner_result(l, art_id) {
            Ok(o) => Ok(QueryResponse::ArtOwner(o)),
            Err(e) => Err(e),
        },
        QueryMsg::GetBalance { addr } => Ok(
            QueryResponse::Balance(GetBalanceResponse { balance: l.balance_of(addr@) }),
        ),
    }
}

/// Answers a read request; reads never change the ledger.
pub fn query(ledger: &Ledger, msg: &QueryMsg) -> (r: Result<QueryResponse, ContractError>)
    requires
        ledger.wf(),
    ensures
        r == query_result(*ledger, *msg),
{
    match msg {
        QueryMsg::GetCount {  } => Ok(QueryResponse::Count(count(ledger))),
        QueryMsg::GetArt { art_id } => match art(ledger, *art_id) {
            Ok(a) => Ok(QueryResponse::Art(a)),
            Err(e) => Err(e),
        },
        QueryMsg::GetArtOwner { art_id } => match artowner(ledger, *art_id) {
            Ok(o) => Ok(QueryResponse::ArtOwner(o)),
            Err(e) => Err(e),
        },
        QueryMsg::GetBalance { addr } => Ok(QueryResponse::Balance(balance(ledger, addr))),
    }
}

/// The counter.
pub fn count(ledger: &Ledger) -> (r: GetCountResponse)
    ensures
        r == (GetCountResponse { count: ledger.state.count }),
{
    GetCountResponse { count: ledger.state.count }
}

/// The art item with id `art_id`.
pub fn art(ledger: &Ledger, art_id: u64) -> (r: Result<GetArtResponse, ContractError>)
    requires
        ledger.wf(),
    ensures
        r == art_result(*ledger, art_id),
{
    if art_id as usize >= ledger.gallery.len() || art_id >= ledger.state.art_counter {
        return Err(ContractError::NotFound);
    }
    Ok(GetArtResponse { art: ledger.gallery[art_id as usize] })
}

/// The holder of the art item with id `art_id`.
pub fn artowner(ledger: &Ledger, art_id: u64) -> (r: Result<GetArtOwnerResponse, ContractError>)
    requires
        ledger.wf(),
    ensures
        r == owner_result(*ledger, art_id),
{
    if art_id as usize >= ledger.owners.len() || art_id >= ledger.state.art_counter {
        return Err(ContractError::NotFound);
    }
    Ok(GetArtOwnerResponse { owner: ledger.owners[art_id as usize].clone() })
}

/// The balance of `addr`, zero for an account that never deposited.
pub fn balance(ledger: &Ledger, addr: &String) -> (r: GetBalanceResponse)
    requires
        ledger.wf(),
    ensures
        r == (GetBalanceResponse { balance: ledger.balance_of(addr@) }),
{
    GetBalanceResponse { balance: ledger.load_balance(addr) }
}

} // verus!
