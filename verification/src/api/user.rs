//! The gateway's set-up, the questions it takes, and the two questions that
//! one answer of the balance oracle settles.

use vstd::prelude::*;
use crate::amount::sums_to;
use crate::api::error::ApiError;
use crate::debank::openapi::{on_chain_of, usd_values};
use crate::debank::openapi::{DebankApiError, DebankOpenAPI, DebankTokenBalance, DebankTotalBalance};
use crate::etherscan::EtherscanAPi;
use crate::text::texts;
use crate::transport::{ApiRequest, ApiRequestView};

verus! {

/// What the gateway is set up with: the chains it reports, and the access to
/// the two oracles.
#[derive(Debug)]
pub struct ApiUserData {
    support_chains: Vec<String>,
    acc_api: EtherscanAPi,
    ass_api: DebankOpenAPI,
}

/// A question about the account `id`.
#[derive(Debug)]
pub struct QueryWithId {
    pub id: String,
}

/// A question about what the account `id` holds of the token named
/// `token_name`.
#[derive(Debug)]
pub struct QueryWithTokenName {
    pub id: String,
    pub token_name: String,
}

/// A question about what the account `id` holds of the token `token_id` on
/// the chain `chain_id`.
#[derive(Debug)]
pub struct QueryTokenWithId {
    pub id: String,
    pub token_id: String,
    pub chain_id: String,
}

/// The age of an account: when it sent its first transaction, or the
/// greatest 64-bit integer if it has sent none.
#[derive(Debug, Clone, Copy, PartialEq, Eq, Structural)]
pub struct AccountInfo {
    pub activation_time: i64,
}

impl ApiUserData {
    pub fn new(support_chains: Vec<String>, acc_api: EtherscanAPi, ass_api: DebankOpenAPI) -> (data:
        Self)
        ensures
            data.support_chains() == support_chains,
            data.acc_api() == acc_api,
            data.ass_api() == ass_api,
    {
        Self { support_chains, acc_api, ass_api }
    }

    /// The chains that the gateway reports.
    #[verifier::when_used_as_spec(spec_support_chains)]
    pub fn support_chains(&self) -> (chains: &Vec<String>)
        ensures
            *chains == self.support_chains(),
    {
        &self.support_chains
    }

    pub closed spec fn spec_support_chains(&self) -> &Vec<String> {
        &self.support_chains
    }

    /// The access to the age oracle.
    #[verifier::when_used_as_spec(spec_acc_api)]
    pub fn acc_api(&self) -> (api: &EtherscanAPi)
        ensures
            *api == self.acc_api(),
    {
        &self.acc_api
    }

    pub closed spec fn spec_acc_api(&self) -> &EtherscanAPi {
        &self.acc_api
    }

    /// The access to the balance oracle.
    #[verifier::when_used_as_spec(spec_ass_api)]
    pub fn ass_api(&self) -> (api: &DebankOpenAPI)
        ensures
            *api == self.ass_api(),
    {
        &self.ass_api
    }

    pub closed spec fn spec_ass_api(&self) -> &DebankOpenAPI {
        &self.ass_api
    }
}

/// The request that the question `info` sends to the balance oracle: what the
/// account holds on every chain.
pub fn total_balance_request(state: &ApiUserData, info: &QueryWithId) -> (request: ApiRequest)
    ensures
        request@ == (ApiRequestView {
            path: Some("/v1/user/total_balance"@),
            headers: seq![("AccessKey"@, state.ass_api().access_key()@)],
            query: seq![("id"@, info.id@)],
        }),
{
    state.ass_api.muti_chain_balance_request(info.id.as_str())
}

/// The request that the question `info` sends to the balance oracle: what the
/// account holds of the token on the chain.
pub fn token_balance_request(state: &ApiUserData, info: &QueryTokenWithId) -> (request: ApiRequest)
    ensures
        request@ == (ApiRequestView {
            path: Some("/v1/user/token"@),
            headers: seq![("AccessKey"@, state.ass_api().access_key()@)],
            query: seq![
                ("id"@, info.id@),
                ("chain_id"@, info.chain_id@),
                ("token_id"@, info.token_id@),
            ],
        }),
{
    state.ass_api.token_balance_request(
        info.id.as_str(),
        info.chain_id.as_str(),
        info.token_id.as_str(),
    )
}

/// What the account holds on the chains that the gateway reports.
///
/// `fetched` is what the balance oracle answered for every chain. Of an
/// answer the entries of the supported chains stay, in their order, and the
/// total is the sum of the entries that stay, added to `zero` through `plus`,
/// first to last: the total that the oracle reported counts chains that are
/// not shown, and is dropped. A failure of the oracle is handed on.
pub fn total_balance<V: Copy, F: Fn(V, V) -> V>(
    state: &ApiUserData,
    fetched: Result<DebankTotalBalance<V>, DebankApiError>,
    zero: V,
    plus: &F,
) -> (answer: Result<DebankTotalBalance<V>, ApiError>)
    requires
        forall|a: V, b: V| plus.requires((a, b)),
    ensures
        match fetched {
            Ok(res) => {
                &&& answer matches Ok(balance)
                &&& balance.chain_list@ == res.chain_list@.filter(
                    on_chain_of(state.support_chains()@),
                )
                &&& forall|i: int|
                    0 <= i < balance.chain_list@.len() ==> texts(
                        state.support_chains()@,
                    ).contains(#[trigger] balance.chain_list@[i].id@)
                &&& sums_to(
                    *plus,
                    zero,
                    usd_values(balance.chain_list@),
                    balance.total_usd_value,
                )
            },
            Err(e) => answer == Err::<DebankTotalBalance<V>, ApiError>(ApiError::AssetApiError(e)),
        },
{
    match fetched {
        Ok(res) => Ok(state.ass_api.muti_chain_balance(res, &state.support_chains, zero, plus)),
        Err(e) => Err(ApiError::AssetApiError(e)),
    }
}

/// What the account holds of one token on one chain: the answer of the
/// balance oracle as it is, or its failure.
pub fn token_balance<V>(fetched: Result<DebankTokenBalance<V>, DebankApiError>) -> (answer: Result<
    DebankTokenBalance<V>,
    ApiError,
>)
    ensures
        answer == match fetched {
            Ok(balance) => Ok::<DebankTokenBalance<V>, ApiError>(balance),
            Err(e) => Err::<DebankTokenBalance<V>, ApiError>(ApiError::AssetApiError(e)),
        },
{
    match fetched {
        Ok(balance) => Ok(balance),
        Err(e) => Err(ApiError::AssetApiError(e)),
    }
}

} // verus!
