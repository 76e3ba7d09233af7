use art_gallery::contract::{
    self, art, artowner, balance, count, create, execute, instantiate, instantiate_once, purchase,
    query, withdraw,
};
use art_gallery::error::ContractError;
use art_gallery::msg::{
    Coin, ExecuteMsg, GetArtOwnerResponse, GetArtResponse, GetCountResponse, InstantiateMsg,
    MessageInfo, QueryMsg, QueryResponse,
};
use art_gallery::response::BankMsg;
use art_gallery::state::{Art, Ledger};

fn mock_info(sender: &str, funds: &[(u128, &str)]) -> MessageInfo {
    MessageInfo {
        sender: sender.to_string(),
        funds: funds
            .iter()
            .map(|(amount, denom)| Coin { denom: denom.to_string(), amount: *amount })
            .collect(),
    }
}

fn setup(count: i32) -> Ledger {
    let msg = InstantiateMsg { count, royalty_rate: 5u64 };
    let (ledger, _res) = instantiate(&mock_info("creator", &[(2, "token")]), msg);
    ledger
}

fn query_count(ledger: &Ledger) -> i32 {
    match query(ledger, &QueryMsg::GetCount {}).unwrap() {
        QueryResponse::Count(GetCountResponse { count }) => count,
        other => panic!("unexpected answer {:?}", other),
    }
}

fn query_balance(ledger: &Ledger, addr: &str) -> u128 {
    match query(ledger, &QueryMsg::GetBalance { addr: addr.to_string() }).unwrap() {
        QueryResponse::Balance(b) => b.balance,
        other => panic!("unexpected answer {:?}", other),
    }
}

#[test]
fn proper_initialization() {
    let msg = InstantiateMsg { count: 17, royalty_rate: 5u64 };
    let info = mock_info("creator", &[(1000, "earth")]);

    let (ledger, res) = instantiate(&info, msg);
    assert_eq!(0, res.messages.len());

    assert_eq!(17, query_count(&ledger));
}

#[test]
fn increment() {
    let mut ledger = setup(17);

    let info = mock_info("anyone", &[(2, "token")]);
    let _res = execute(&mut ledger, &info, ExecuteMsg::Increment {}).unwrap();

    assert_eq!(18, query_count(&ledger));
}

#[test]
fn reset() {
    let mut ledger = setup(17);

    let unauth_info = mock_info("anyone", &[(2, "token")]);
    let res = execute(&mut ledger, &unauth_info, ExecuteMsg::Reset { count: 5 });
    match res {
        Err(ContractError::Unauthorized) => {}
        _ => panic!("Must return unauthorized error"),
    }

    let auth_info = mock_info("creator", &[(2, "token")]);
    let _res = execute(&mut ledger, &auth_info, ExecuteMsg::Reset { count: 5 }).unwrap();

    assert_eq!(5, query_count(&ledger));
}

#[test]
fn deposit() {
    let msg = InstantiateMsg { count: 0, royalty_rate: 5u64 };
    let creator = "creator".to_string();
    let info = mock_info(&creator, &[(1000, "ucosm")]);
    let (mut ledger, _res) = instantiate(&info, msg);

    let depositor = "depositor".to_string();
    let deposit_info = mock_info(&depositor, &[(500, "ucosm")]);
    let res = execute(&mut ledger, &deposit_info, ExecuteMsg::Deposit {}).unwrap();

    assert_eq!(res.attributes.len(), 3);
    assert_eq!(res.attributes[0].key, "action");
    assert_eq!(res.attributes[0].value, "deposit");
    assert_eq!(res.attributes[1].key, "account");
    assert_eq!(res.attributes[1].value, depositor);

    assert_eq!(500u128, query_balance(&ledger, "depositor"));
}

#[test]
fn instantiate_records_configuration() {
    let msg = InstantiateMsg { count: -3, royalty_rate: 250u64 };
    let (ledger, res) = instantiate(&mock_info("creator", &[]), msg);
    assert_eq!(ledger.state.owner, "creator");
    assert_eq!(ledger.state.count, -3);
    assert_eq!(ledger.state.art_counter, 0);
    assert_eq!(ledger.state.royalty_rate, 250);
    let pairs: Vec<(String, String)> =
        res.attributes.iter().map(|a| (a.key.clone(), a.value.clone())).collect();
    let expected: Vec<(String, String)> = vec![
        ("method".to_string(), "instantiate".to_string()),
        ("owner".to_string(), "creator".to_string()),
        ("count".to_string(), "-3".to_string()),
        ("art_counter".to_string(), "0".to_string()),
        ("royalty_rate".to_string(), "250".to_string()),
    ];
    assert_eq!(pairs, expected);
}

#[test]
fn create_then_increment_counts_on() {
    let mut ledger = setup(17);
    assert_eq!(count(&ledger).count, 17);
    execute(&mut ledger, &mock_info("anyone", &[]), ExecuteMsg::Increment {}).unwrap();
    assert_eq!(count(&ledger).count, 18);
}

#[test]
fn increment_wraps_at_the_end_of_the_range() {
    let mut ledger = setup(i32::MAX);
    execute(&mut ledger, &mock_info("anyone", &[]), ExecuteMsg::Increment {}).unwrap();
    assert_eq!(count(&ledger).count, i32::MIN);
}

#[test]
fn reset_by_stranger_changes_nothing() {
    let mut ledger = setup(17);
    execute(&mut ledger, &mock_info("anyone", &[]), ExecuteMsg::Increment {}).unwrap();
    let res = execute(&mut ledger, &mock_info("stranger", &[]), ExecuteMsg::Reset { count: -40 });
    assert_eq!(res.unwrap_err(), ContractError::Unauthorized);
    assert_eq!(count(&ledger).count, 18);
    execute(&mut ledger, &mock_info("creator", &[]), ExecuteMsg::Reset { count: -40 }).unwrap();
    assert_eq!(count(&ledger).count, -40);
}

#[test]
fn deposits_accumulate() {
    let mut ledger = setup(0);
    contract::deposit(&mut ledger, &mock_info("acct", &[(500, "ucosm")])).unwrap();
    assert_eq!(query_balance(&ledger, "acct"), 500);
    let res = contract::deposit(&mut ledger, &mock_info("acct", &[(200, "ucosm"), (7, "earth")])).unwrap();
    assert_eq!(query_balance(&ledger, "acct"), 700);
    assert_eq!(res.attributes[2].key, "amount");
    assert_eq!(res.attributes[2].value, "700");
    assert_eq!(query_balance(&ledger, "other"), 0);
}

#[test]
fn deposit_of_several_native_coins_sums_them() {
    let mut ledger = setup(0);
    contract::deposit(&mut ledger, &mock_info("acct", &[(1, "ucosm"), (2, "ucosm"), (40, "ucosm")])).unwrap();
    assert_eq!(balance(&ledger, &"acct".to_string()).balance, 43);
}

#[test]
fn deposit_without_native_funds_is_refused() {
    let mut ledger = setup(0);
    let res = contract::deposit(&mut ledger, &mock_info("acct", &[(900, "earth")]));
    assert_eq!(res.unwrap_err(), ContractError::EmptyBalance);
    let res = contract::deposit(&mut ledger, &mock_info("acct", &[]));
    assert_eq!(res.unwrap_err(), ContractError::EmptyBalance);
    assert_eq!(query_balance(&ledger, "acct"), 0);
    assert!(ledger.balances.is_empty());
}

#[test]
fn withdraw_pays_out_without_debiting() {
    let mut ledger = setup(0);
    contract::deposit(&mut ledger, &mock_info("acct", &[(300, "ucosm")])).unwrap();
    let res = withdraw(&ledger, &mock_info("acct", &[]), 120).unwrap();
    assert_eq!(res.messages.len(), 1);
    match &res.messages[0] {
        BankMsg::Send { to_address, amount } => {
            assert_eq!(to_address, "acct");
            assert_eq!(amount.len(), 1);
            assert_eq!(amount[0].denom, "ucosm");
            assert_eq!(amount[0].amount, 120);
        }
    }
    assert_eq!(res.attributes[0].value, "withdraw");
    assert_eq!(res.attributes[1].key, "sender");
    assert_eq!(res.attributes[1].value, "acct");
    assert_eq!(query_balance(&ledger, "acct"), 300);
}

#[test]
fn withdraw_beyond_balance_is_refused() {
    let mut ledger = setup(0);
    contract::deposit(&mut ledger, &mock_info("acct", &[(300, "ucosm")])).unwrap();
    let res = execute(&mut ledger, &mock_info("acct", &[]), ExecuteMsg::Withdraw { amount: 301 });
    assert_eq!(res.unwrap_err(), ContractError::InsufficientBalance);
    let res = withdraw(&ledger, &mock_info("nobody", &[]), 1);
    assert_eq!(res.unwrap_err(), ContractError::InsufficientBalance);
}

#[test]
fn mint_then_purchase() {
    let mut ledger = setup(0);
    let res = execute(
        &mut ledger,
        &mock_info("artist", &[]),
        ExecuteMsg::CreateArt { price: 100, rfid: 4242 },
    )
    .unwrap();
    assert_eq!(res.attributes[0].value, "create");
    assert_eq!(res.attributes[1].key, "art_id");
    assert_eq!(res.attributes[1].value, "0");
    let holder: GetArtOwnerResponse = artowner(&ledger, 0).unwrap();
    assert_eq!(holder.owner, "artist");
    contract::deposit(&mut ledger, &mock_info("buyer", &[(150, "ucosm")])).unwrap();
    let res = execute(&mut ledger, &mock_info("buyer", &[]), ExecuteMsg::PurchaseArt { art_id: 0 })
        .unwrap();
    assert_eq!(res.attributes[0].value, "purchase");
    assert_eq!(res.attributes[1].value, "0");
    assert_eq!(artowner(&ledger, 0).unwrap().owner, "buyer");
    assert_eq!(query_balance(&ledger, "buyer"), 50);
    assert_eq!(query_balance(&ledger, "artist"), 0);
    assert_eq!(
        art(&ledger, 0).unwrap(),
        GetArtResponse { art: Art { art_id: 0, price: 100, rfid: 4242 } }
    );
}

#[test]
fn owner_may_not_mint() {
    let mut ledger = setup(0);
    let res = create(&mut ledger, &mock_info("creator", &[]), 100, 1);
    assert_eq!(res.unwrap_err(), ContractError::Unauthorized);
    assert_eq!(ledger.state.art_counter, 0);
    assert!(ledger.gallery.is_empty());
}

#[test]
fn purchase_without_funds_changes_nothing() {
    let mut ledger = setup(0);
    create(&mut ledger, &mock_info("artist", &[]), 100, 9).unwrap();
    contract::deposit(&mut ledger, &mock_info("buyer", &[(99, "ucosm")])).unwrap();
    let res = purchase(&mut ledger, &mock_info("buyer", &[]), 0);
    assert_eq!(res.unwrap_err(), ContractError::InsufficientBalance);
    assert_eq!(artowner(&ledger, 0).unwrap().owner, "artist");
    assert_eq!(query_balance(&ledger, "buyer"), 99);
}

#[test]
fn unknown_art_is_not_found() {
    let mut ledger = setup(0);
    contract::deposit(&mut ledger, &mock_info("buyer", &[(99, "ucosm")])).unwrap();
    assert_eq!(purchase(&mut ledger, &mock_info("buyer", &[]), 3).unwrap_err(), ContractError::NotFound);
    assert_eq!(art(&ledger, 0).unwrap_err(), ContractError::NotFound);
    assert_eq!(artowner(&ledger, 0).unwrap_err(), ContractError::NotFound);
    assert!(matches!(
        query(&ledger, &QueryMsg::GetArt { art_id: 7 }),
        Err(ContractError::NotFound)
    ));
}

#[test]
fn reads_repeat() {
    let mut ledger = setup(0);
    create(&mut ledger, &mock_info("artist", &[]), 5, 6).unwrap();
    contract::deposit(&mut ledger, &mock_info("acct", &[(10, "ucosm")])).unwrap();
    assert_eq!(art(&ledger, 0), art(&ledger, 0));
    assert_eq!(balance(&ledger, &"acct".to_string()), balance(&ledger, &"acct".to_string()));
    assert_eq!(query_balance(&ledger, "acct"), 10);
}

#[test]
fn art_ids_strictly_increase() {
    let mut ledger = setup(0);
    let mut ids: Vec<String> = Vec::new();
    for k in 0..5u64 {
        let res = create(&mut ledger, &mock_info("artist", &[]), 10 * k as u128, k).unwrap();
        ids.push(res.attributes[1].value.clone());
    }
    assert_eq!(ids, vec!["0", "1", "2", "3", "4"]);
    assert_eq!(ledger.state.art_counter, 5);
    for k in 0..5u64 {
        assert_eq!(art(&ledger, k).unwrap().art.art_id, k);
    }
}

#[test]
fn large_art_id_text() {
    let mut ledger = setup(0);
    for _ in 0..12 {
        create(&mut ledger, &mock_info("artist", &[]), 1, 1).unwrap();
    }
    let res = create(&mut ledger, &mock_info("artist", &[]), 1, 1).unwrap();
    assert_eq!(res.attributes[1].value, "12");
}

#[test]
fn deposit_without_native_coin_is_refused_for_a_funded_account() {
    let mut ledger = setup(0);
    contract::deposit(&mut ledger, &mock_info("acct", &[(500, "ucosm")])).unwrap();
    let res = contract::deposit(&mut ledger, &mock_info("acct", &[(300, "earth")]));
    assert_eq!(res.unwrap_err(), ContractError::EmptyBalance);
    let res = execute(&mut ledger, &mock_info("acct", &[]), ExecuteMsg::Deposit {});
    assert_eq!(res.unwrap_err(), ContractError::EmptyBalance);
    assert_eq!(query_balance(&ledger, "acct"), 500);
}

#[test]
fn second_creation_is_refused() {
    let msg = InstantiateMsg { count: 17, royalty_rate: 5u64 };
    let info = mock_info("creator", &[]);
    let (ledger, _res) = instantiate_once(&None, &info, msg).unwrap();
    assert_eq!(ledger.state.count, 17);
    assert_eq!(ledger.state.owner, "creator");
    let again = instantiate_once(
        &Some(ledger.state.clone()),
        &mock_info("intruder", &[]),
        InstantiateMsg { count: 1, royalty_rate: 0 },
    );
    assert_eq!(again.unwrap_err(), ContractError::AlreadyInitialized);
}
