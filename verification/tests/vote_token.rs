use portfolio_log::api::error::ApiError;
use portfolio_log::api::user::{
    token_balance, token_balance_request, total_balance, total_balance_request, ApiUserData,
    QueryTokenWithId, QueryWithId, QueryWithTokenName,
};
use portfolio_log::api::vote_token::{
    token_total_amount, total_amount, TokenAmountEvent, TokenAmountState,
};
use portfolio_log::debank::openapi::{
    ChainBalance, DebankApiError, DebankOpenAPI, DebankTokenBalance, DebankTotalBalance,
};
use portfolio_log::etherscan::EtherscanAPi;
use portfolio_log::storage::StorageError;

fn gateway(chains: &[&str]) -> ApiUserData {
    ApiUserData::new(
        chains.iter().map(|s| s.to_string()).collect(),
        EtherscanAPi::new(
            reqwest::Client::new(),
            "ETHERSCAN",
            reqwest::Url::parse("https://api.etherscan.io/api").unwrap(),
        ),
        DebankOpenAPI::new(
            reqwest::Client::new(),
            reqwest::Url::parse("https://pro-openapi.debank.com/v1").unwrap(),
            "DEBANK",
        ),
    )
}

fn chain(id: &str, usd_value: f64) -> ChainBalance<f64> {
    ChainBalance {
        id: id.to_string(),
        community_id: 0,
        name: String::new(),
        logo_url: String::new(),
        native_token_id: String::new(),
        usd_value,
    }
}

fn token(chain: &str, id: &str, amount: f64) -> DebankTokenBalance<f64> {
    DebankTokenBalance {
        id: id.to_string(),
        chain: chain.to_string(),
        name: "Vote".to_string(),
        symbol: "VOTE".to_string(),
        decimals: 18,
        logo_url: String::new(),
        protocol_id: String::new(),
        is_core: true,
        price: 2.0,
        amount,
        raw_amount: amount * 1.0e18,
        raw_amount_hex_str: String::new(),
    }
}

fn owned(pairs: &[(&str, &str)]) -> Vec<(String, String)> {
    pairs.iter().map(|(k, v)| (k.to_string(), v.to_string())).collect()
}

fn plus(a: f64, b: f64) -> f64 {
    a + b
}

/// Does what each state asks for until the answer is there; `oracle` is
/// called once for each pair that is asked.
fn named_token_balance(
    token_ids: Result<Vec<(String, String)>, StorageError>,
    oracle: &dyn Fn(&str, &str, &str) -> Result<DebankTokenBalance<f64>, DebankApiError>,
    asked: &mut Vec<(String, String)>,
) -> Result<f64, ApiError> {
    let mut token_ids = Some(token_ids);
    let mut state = TokenAmountState::new(QueryWithTokenName {
        id: "0xa749".to_string(),
        token_name: "VOTE".to_string(),
    });
    loop {
        let event = match &state {
            TokenAmountState::LoadTokenIds { id, token_name } => {
                assert_eq!(id, "0xa749");
                assert_eq!(token_name, "VOTE");
                TokenAmountEvent::TokenIdsLoaded(token_ids.take().expect("read twice"))
            }
            TokenAmountState::FetchTokenBalance { id, chain_id, token_id, .. } => {
                asked.push((chain_id.clone(), token_id.clone()));
                TokenAmountEvent::TokenBalanceFetched(oracle(id, chain_id, token_id))
            }
            TokenAmountState::Respond { .. } => break,
        };
        state = token_total_amount(state, event);
    }
    match state {
        TokenAmountState::Respond { result } => {
            result.map(|balances| total_amount(&balances, 0.0, &plus).amount)
        }
        _ => unreachable!(),
    }
}

fn holds(_: &str, chain: &str, token_id: &str) -> Result<DebankTokenBalance<f64>, DebankApiError> {
    let amount = match chain {
        "eth" => 0.1,
        "bsc" => 0.2,
        "matic" => 0.3,
        _ => 1000.0,
    };
    Ok(token(chain, token_id, amount))
}

fn fails_on_bsc(
    id: &str,
    chain: &str,
    token_id: &str,
) -> Result<DebankTokenBalance<f64>, DebankApiError> {
    if chain == "bsc" {
        Err(DebankApiError::RateLimitExceeded)
    } else {
        holds(id, chain, token_id)
    }
}

fn fails_on_bsc_and_after(
    id: &str,
    chain: &str,
    token_id: &str,
) -> Result<DebankTokenBalance<f64>, DebankApiError> {
    match chain {
        "bsc" => Err(DebankApiError::CapacityLimitExceeded),
        "matic" => Err(DebankApiError::Unauthorized),
        _ => holds(id, chain, token_id),
    }
}

#[test]
fn amount_is_the_sum_over_the_chains_of_the_mapping() {
    let mut asked = Vec::new();
    let mapping = owned(&[("eth", "0xe"), ("bsc", "0xb"), ("matic", "0xm")]);
    let amount = named_token_balance(Ok(mapping.clone()), &holds, &mut asked).unwrap();
    assert_eq!(amount, ((0.0 + 0.1) + 0.2) + 0.3);
    assert_eq!(amount, 0.6000000000000001);
    assert_eq!(asked, mapping);
}

#[test]
fn amount_over_one_chain_is_its_balance() {
    let mut asked = Vec::new();
    let amount = named_token_balance(Ok(owned(&[("bsc", "0xb")])), &holds, &mut asked).unwrap();
    assert_eq!(amount, 0.2);
    assert_eq!(asked, owned(&[("bsc", "0xb")]));
}

#[test]
fn empty_mapping_gives_zero_and_asks_nothing() {
    let mut asked = Vec::new();
    let amount = named_token_balance(Ok(Vec::new()), &holds, &mut asked).unwrap();
    assert_eq!(amount, 0.0);
    assert!(asked.is_empty());
}

#[test]
fn one_failing_chain_fails_the_whole_question() {
    let mut asked = Vec::new();
    let mapping = owned(&[("eth", "0xe"), ("bsc", "0xb"), ("matic", "0xm")]);
    let answer = named_token_balance(Ok(mapping), &fails_on_bsc, &mut asked);
    assert!(matches!(answer, Err(ApiError::AssetApiError(DebankApiError::RateLimitExceeded))));
    assert_eq!(asked, owned(&[("eth", "0xe"), ("bsc", "0xb")]));
}

#[test]
fn failure_on_the_last_chain_fails_the_whole_question() {
    let mut asked = Vec::new();
    let mapping = owned(&[("eth", "0xe"), ("matic", "0xm"), ("bsc", "0xb")]);
    let answer = named_token_balance(Ok(mapping.clone()), &fails_on_bsc, &mut asked);
    assert!(matches!(answer, Err(ApiError::AssetApiError(DebankApiError::RateLimitExceeded))));
    assert_eq!(asked, mapping);
}

#[test]
fn first_failure_is_the_answer() {
    let mut asked = Vec::new();
    let mapping = owned(&[("bsc", "0xb"), ("matic", "0xm"), ("eth", "0xe")]);
    let answer = named_token_balance(Ok(mapping), &fails_on_bsc_and_after, &mut asked);
    assert!(matches!(
        answer,
        Err(ApiError::AssetApiError(DebankApiError::CapacityLimitExceeded))
    ));
    assert_eq!(asked, owned(&[("bsc", "0xb")]));
}

#[test]
fn failure_of_the_store_fails_the_question_before_the_oracle_is_asked() {
    let mut asked = Vec::new();
    let answer =
        named_token_balance(Err(StorageError::Sqlx(sqlx::Error::RowNotFound)), &holds, &mut asked);
    assert!(matches!(
        answer,
        Err(ApiError::StorageError(StorageError::Sqlx(sqlx::Error::RowNotFound)))
    ));
    assert!(asked.is_empty());
}

#[test]
fn balances_are_kept_in_the_order_in_which_they_were_asked() {
    let state = TokenAmountState::<f64>::new(QueryWithTokenName {
        id: "0xa749".to_string(),
        token_name: "VOTE".to_string(),
    });
    let state = token_total_amount(
        state,
        TokenAmountEvent::TokenIdsLoaded(Ok(owned(&[("eth", "0xe"), ("bsc", "0xb")]))),
    );
    match &state {
        TokenAmountState::FetchTokenBalance { id, chain_id, token_id, rest, balances } => {
            assert_eq!(id, "0xa749");
            assert_eq!((chain_id.as_str(), token_id.as_str()), ("eth", "0xe"));
            assert_eq!(*rest, owned(&[("bsc", "0xb")]));
            assert!(balances.is_empty());
        }
        other => panic!("unexpected: {:?}", other),
    }
    let state = token_total_amount(state, TokenAmountEvent::TokenIdsLoaded(Ok(Vec::new())));
    let state =
        token_total_amount(state, TokenAmountEvent::TokenBalanceFetched(Ok(token("eth", "0xe", 1.0))));
    match &state {
        TokenAmountState::FetchTokenBalance { chain_id, token_id, rest, balances, .. } => {
            assert_eq!((chain_id.as_str(), token_id.as_str()), ("bsc", "0xb"));
            assert!(rest.is_empty());
            assert_eq!(balances.len(), 1);
        }
        other => panic!("unexpected: {:?}", other),
    }
    let state =
        token_total_amount(state, TokenAmountEvent::TokenBalanceFetched(Ok(token("bsc", "0xb", 2.0))));
    let state =
        token_total_amount(state, TokenAmountEvent::TokenBalanceFetched(Ok(token("ftm", "0xf", 4.0))));
    match state {
        TokenAmountState::Respond { result: Ok(balances) } => {
            let chains: Vec<&str> = balances.iter().map(|b| b.chain.as_str()).collect();
            assert_eq!(chains, vec!["eth", "bsc"]);
            assert_eq!(total_amount(&balances, 0.0, &plus).amount, 3.0);
        }
        other => panic!("unexpected: {:?}", other),
    }
}

#[test]
fn total_amount_adds_the_amounts_and_nothing_else() {
    let balances = vec![token("eth", "0xe", 1.5), token("bsc", "0xb", 2.25)];
    assert_eq!(total_amount(&balances, 0.0, &plus).amount, 3.75);
    assert_eq!(total_amount(&Vec::<DebankTokenBalance<f64>>::new(), 0.0, &plus).amount, 0.0);
}

#[test]
fn total_balance_shows_the_supported_chains_and_their_sum() {
    let state = gateway(&["eth", "bsc"]);
    let upstream = DebankTotalBalance {
        total_usd_value: 175.0,
        chain_list: vec![chain("eth", 100.0), chain("bsc", 50.0), chain("ftm", 25.0)],
    };
    let answer = total_balance(&state, Ok(upstream), 0.0, &plus).unwrap();
    let shown: Vec<(&str, f64)> =
        answer.chain_list.iter().map(|c| (c.id.as_str(), c.usd_value)).collect();
    assert_eq!(shown, vec![("eth", 100.0), ("bsc", 50.0)]);
    assert_eq!(answer.total_usd_value, 150.0);
}

#[test]
fn total_balance_hands_on_the_failure_of_the_oracle() {
    let state = gateway(&["eth", "bsc"]);
    let answer = total_balance::<f64, _>(&state, Err(DebankApiError::Unauthorized), 0.0, &plus);
    assert!(matches!(answer, Err(ApiError::AssetApiError(DebankApiError::Unauthorized))));
}

#[test]
fn token_balance_is_the_answer_of_the_oracle_as_it_is() {
    let answer = token_balance(Ok(token("eth", "0xe", 12.5))).unwrap();
    assert_eq!(answer.amount, 12.5);
    assert_eq!(answer.raw_amount, 12.5e18);
    assert_eq!(answer.price, 2.0);
    assert_eq!(answer.chain, "eth");
    assert_eq!(answer.id, "0xe");
    assert_eq!(answer.symbol, "VOTE");
    assert_eq!(answer.decimals, 18);
    assert!(answer.is_core);
    let failed = token_balance::<f64>(Err(DebankApiError::Unknown));
    assert!(matches!(failed, Err(ApiError::AssetApiError(DebankApiError::Unknown))));
}

#[test]
fn requests_of_the_gateway_carry_the_fields_of_the_question() {
    let state = gateway(&["eth"]);
    let request = total_balance_request(&state, &QueryWithId { id: "0xa749".to_string() });
    assert_eq!(request.path.as_deref(), Some("/v1/user/total_balance"));
    assert_eq!(request.headers, owned(&[("AccessKey", "DEBANK")]));
    assert_eq!(request.query, owned(&[("id", "0xa749")]));

    let request = token_balance_request(
        &state,
        &QueryTokenWithId {
            id: "0xa749".to_string(),
            token_id: "0xdac1".to_string(),
            chain_id: "eth".to_string(),
        },
    );
    assert_eq!(request.path.as_deref(), Some("/v1/user/token"));
    assert_eq!(request.headers, owned(&[("AccessKey", "DEBANK")]));
    assert_eq!(
        request.query,
        owned(&[("id", "0xa749"), ("chain_id", "eth"), ("token_id", "0xdac1")])
    );
}

#[test]
fn gateway_hands_out_what_it_was_set_up_with() {
    let state = gateway(&["eth", "bsc"]);
    assert_eq!(*state.support_chains(), vec!["eth".to_string(), "bsc".to_string()]);
    let request = state.acc_api().account_age_request("0xa749");
    assert_eq!(request.query.last(), Some(&("api_key".to_string(), "ETHERSCAN".to_string())));
    let request = state.ass_api().chain_balance_request("0xa749", "eth");
    assert_eq!(request.headers, owned(&[("AccessKey", "DEBANK")]));
}
