use token_factory::contract::{
    execute, execute_create_token, instantiate, query, query_config, query_stats,
    query_token_info, query_token_list, reply, INSTANTIATE_TOKEN_REPLY_ID,
};
use token_factory::error::ContractError;
use token_factory::msg::{
    Coin, Event, EventAttribute, ExecuteMsg, InstantiateMsg, QueryAnswer, QueryMsg,
    SubCallOutcome,
};
use token_factory::state::Registry;

const FEE: u128 = 1_000_000;

fn setup() -> Registry {
    instantiate(
        "owner1".to_string(),
        InstantiateMsg { cw20_code_id: 42, creation_fee: FEE },
    )
}

fn usei(amount: u128) -> Vec<Coin> {
    vec![Coin { denom: "usei".to_string(), amount }]
}

fn deployed(addr: &str) -> SubCallOutcome {
    SubCallOutcome::Success {
        events: vec![Event {
            ty: "instantiate".to_string(),
            attributes: vec![EventAttribute {
                key: "_contract_address".to_string(),
                value: addr.to_string(),
            }],
        }],
    }
}

fn add_finalized(reg: &mut Registry, symbol: &str, addr: &str) {
    execute_create_token(
        reg,
        "alice".to_string(),
        true,
        usei(FEE),
        format!("{} coin", symbol),
        symbol.to_string(),
        1_000u128,
        String::new(),
        String::new(),
        1_700_000_000,
    )
    .unwrap();
    reply(reg, INSTANTIATE_TOKEN_REPLY_ID, deployed(addr)).unwrap();
}

#[test]
fn config_query_reports_the_configuration() {
    let reg = setup();
    let c = query_config(&reg);
    assert_eq!(c.owner, "owner1");
    assert_eq!(c.cw20_code_id, 42);
    assert_eq!(c.creation_fee, FEE);
}

#[test]
fn token_info_not_found_for_absent_symbol() {
    let reg = setup();
    assert_eq!(
        query_token_info(&reg, "NONE".to_string()).unwrap_err(),
        ContractError::NotFound
    );
}

#[test]
fn token_list_is_sorted_ascending_regardless_of_creation_order() {
    let mut reg = setup();
    add_finalized(&mut reg, "CCC", "addr3");
    add_finalized(&mut reg, "AAA", "addr1");
    add_finalized(&mut reg, "BBB", "addr2");
    let l = query_token_list(&reg, None, None);
    let symbols: Vec<&str> = l.tokens.iter().map(|t| t.symbol.as_str()).collect();
    assert_eq!(symbols, vec!["AAA", "BBB", "CCC"]);
    assert!(reg.check());
}

#[test]
fn token_list_start_after_is_an_exclusive_lower_bound() {
    let mut reg = setup();
    add_finalized(&mut reg, "AAA", "addr1");
    add_finalized(&mut reg, "BBB", "addr2");
    add_finalized(&mut reg, "CCC", "addr3");
    let l = query_token_list(&reg, Some("AAA".to_string()), None);
    let symbols: Vec<&str> = l.tokens.iter().map(|t| t.symbol.as_str()).collect();
    assert_eq!(symbols, vec!["BBB", "CCC"]);

    let l = query_token_list(&reg, Some("AB".to_string()), None);
    let symbols: Vec<&str> = l.tokens.iter().map(|t| t.symbol.as_str()).collect();
    assert_eq!(symbols, vec!["BBB", "CCC"]);

    let l = query_token_list(&reg, Some("ZZZ".to_string()), None);
    assert_eq!(l.tokens.len(), 0);
}

#[test]
fn token_list_limit_caps_the_page() {
    let mut reg = setup();
    add_finalized(&mut reg, "AAA", "addr1");
    add_finalized(&mut reg, "BBB", "addr2");
    add_finalized(&mut reg, "CCC", "addr3");
    let l = query_token_list(&reg, None, Some(2));
    let symbols: Vec<&str> = l.tokens.iter().map(|t| t.symbol.as_str()).collect();
    assert_eq!(symbols, vec!["AAA", "BBB"]);

    assert_eq!(query_token_list(&reg, None, Some(0)).tokens.len(), 0);
    assert_eq!(query_token_list(&reg, None, Some(500)).tokens.len(), 3);
}

#[test]
fn token_list_pages_abut() {
    let mut reg = setup();
    add_finalized(&mut reg, "AAA", "addr1");
    add_finalized(&mut reg, "BBB", "addr2");
    add_finalized(&mut reg, "CCC", "addr3");
    add_finalized(&mut reg, "DDD", "addr4");
    let page1 = query_token_list(&reg, None, Some(2));
    let edge = page1.tokens.last().unwrap().symbol.clone();
    assert_eq!(edge, "BBB");
    let page2 = query_token_list(&reg, Some(edge), Some(2));
    let symbols: Vec<&str> = page2.tokens.iter().map(|t| t.symbol.as_str()).collect();
    assert_eq!(symbols, vec!["CCC", "DDD"]);
}

#[test]
fn queries_are_idempotent() {
    let mut reg = setup();
    add_finalized(&mut reg, "AAA", "addr1");
    execute_create_token(
        &mut reg,
        "alice".to_string(),
        true,
        usei(FEE),
        "B coin".to_string(),
        "BBB".to_string(),
        5u128,
        String::new(),
        String::new(),
        1_700_000_001,
    )
    .unwrap();

    let l1 = query_token_list(&reg, None, None);
    let l2 = query_token_list(&reg, None, None);
    assert_eq!(l1.tokens.len(), l2.tokens.len());
    for (a, b) in l1.tokens.iter().zip(l2.tokens.iter()) {
        assert_eq!(a.symbol, b.symbol);
        assert_eq!(a.contract_address, b.contract_address);
        assert_eq!(a.name, b.name);
        assert_eq!(a.creator, b.creator);
        assert_eq!(a.created_at, b.created_at);
    }
    let t1 = query_token_info(&reg, "AAA".to_string()).unwrap();
    let t2 = query_token_info(&reg, "AAA".to_string()).unwrap();
    assert_eq!(t1.contract_address, t2.contract_address);
    assert_eq!(query_stats(&reg).total_tokens, query_stats(&reg).total_tokens);
}

#[test]
fn stats_counts_only_finalized_records() {
    let mut reg = setup();
    add_finalized(&mut reg, "AAA", "addr1");
    execute_create_token(
        &mut reg,
        "alice".to_string(),
        true,
        usei(FEE),
        "B coin".to_string(),
        "BBB".to_string(),
        5u128,
        String::new(),
        String::new(),
        1_700_000_001,
    )
    .unwrap();
    assert_eq!(query_stats(&reg).total_tokens, 1);
    assert_eq!(query_token_list(&reg, None, None).tokens.len(), 2);
    assert!(reg.check());
}

#[test]
fn execute_dispatches_both_messages() {
    let mut reg = setup();
    let resp = execute(
        &mut reg,
        "alice".to_string(),
        true,
        true,
        usei(FEE),
        1_700_000_000,
        ExecuteMsg::CreateToken {
            name: "Demo".to_string(),
            symbol: "DEMO".to_string(),
            total_supply: 9u128,
            image_url: String::new(),
            description: String::new(),
        },
    )
    .unwrap();
    assert!(resp.deployment.is_some());

    let resp = execute(
        &mut reg,
        "owner1".to_string(),
        true,
        true,
        vec![],
        1_700_000_001,
        ExecuteMsg::UpdateConfig {
            owner: None,
            cw20_code_id: Some(99),
            creation_fee: None,
        },
    )
    .unwrap();
    assert!(resp.deployment.is_none() && resp.fee_transfer.is_none());
    assert_eq!(reg.config.cw20_code_id, 99);
}

#[test]
fn query_dispatches_all_messages() {
    let mut reg = setup();
    add_finalized(&mut reg, "AAA", "addr1");

    match query(&reg, QueryMsg::Config).unwrap() {
        QueryAnswer::Config(c) => assert_eq!(c.owner, "owner1"),
        _ => panic!("wrong answer kind"),
    }
    match query(&reg, QueryMsg::TokenInfo { symbol: "AAA".to_string() }).unwrap() {
        QueryAnswer::TokenInfo(t) => assert_eq!(t.contract_address, "addr1"),
        _ => panic!("wrong answer kind"),
    }
    assert_eq!(
        query(&reg, QueryMsg::TokenInfo { symbol: "ZZZ".to_string() }).unwrap_err(),
        ContractError::NotFound
    );
    match query(&reg, QueryMsg::TokenList { start_after: None, limit: None }).unwrap() {
        QueryAnswer::TokenList(l) => assert_eq!(l.tokens.len(), 1),
        _ => panic!("wrong answer kind"),
    }
    match query(&reg, QueryMsg::Stats).unwrap() {
        QueryAnswer::Stats(s) => assert_eq!(s.total_tokens, 1),
        _ => panic!("wrong answer kind"),
    }
}

#[test]
fn token_list_orders_by_code_point() {
    let mut reg = setup();
    add_finalized(&mut reg, "\u{00C1}A", "addr1");
    add_finalized(&mut reg, "B", "addr2");
    add_finalized(&mut reg, "AB", "addr3");
    add_finalized(&mut reg, "A", "addr4");
    let l = query_token_list(&reg, None, None);
    let symbols: Vec<&str> = l.tokens.iter().map(|t| t.symbol.as_str()).collect();
    assert_eq!(symbols, vec!["A", "AB", "B", "\u{00C1}A"]);
    assert!(reg.check());
}

#[test]
fn unicode_whitespace_only_name_is_blank() {
    let mut reg = setup();
    let err = execute_create_token(
        &mut reg,
        "alice".to_string(),
        true,
        usei(FEE),
        "\u{2003}\u{00A0}\u{3000}".to_string(),
        "DEMO".to_string(),
        1u128,
        String::new(),
        String::new(),
        0,
    )
    .unwrap_err();
    assert_eq!(err, ContractError::InvalidTokenParams);
}

#[test]
fn check_rejects_a_corrupted_state() {
    let mut reg = setup();
    add_finalized(&mut reg, "AAA", "addr1");
    assert!(reg.check());

    let mut wrong_count = reg.clone();
    wrong_count.token_count = 5;
    assert!(!wrong_count.check());

    let mut unsorted = reg.clone();
    let mut extra = unsorted.tokens[0].clone();
    extra.symbol = "AA".to_string();
    unsorted.tokens.push(extra);
    unsorted.token_count = 2;
    assert!(!unsorted.check());
}
