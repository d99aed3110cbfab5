//! Requests to the balance oracle, the reading of its status codes, and the
//! total over the supported chains.

use vstd::prelude::*;
use vstd::std_specs::convert::FromSpecImpl;
use crate::amount::{sum, sums_to};
use crate::text::{contains_text, text_pairs, texts};
use crate::transport::{pair, ApiRequest, ApiRequestView};

verus! {

/// Why the oracle gave no balance.
#[derive(Debug)]
pub enum DebankApiError {
    /// The request could not be sent or its answer not read.
    Reqwest(reqwest::Error),
    /// Unauthorized access key
    Unauthorized,
    /// Exceeded debank api ratelimit
    RateLimitExceeded,
    /// Hit debank api account capacity limit
    CapacityLimitExceeded,
    /// Unknown error
    Unknown,
}

impl From<reqwest::Error> for DebankApiError {
    fn from(e: reqwest::Error) -> (r: Self) {
        DebankApiError::Reqwest(e)
    }
}

impl FromSpecImpl<reqwest::Error> for DebankApiError {
    open spec fn obeys_from_spec() -> bool {
        true
    }

    open spec fn from_spec(e: reqwest::Error) -> Self {
        DebankApiError::Reqwest(e)
    }
}

/// What an account holds on one chain, in USD.
#[derive(Debug)]
pub struct ChainBalance<V> {
    pub id: String,
    pub community_id: i64,
    pub name: String,
    pub logo_url: String,
    pub native_token_id: String,
    pub usd_value: V,
}

/// What an account holds on a chain that the request named, in USD.
#[derive(Debug)]
pub struct DebankChainBalance<V> {
    pub usd_value: V,
}

/// What an account holds chain by chain, and the total.
#[derive(Debug)]
pub struct DebankTotalBalance<V> {
    pub total_usd_value: V,
    pub chain_list: Vec<ChainBalance<V>>,
}

/// What an account holds of one token on one chain.
#[derive(Debug)]
pub struct DebankTokenBalance<V> {
    pub id: String,
    pub chain: String,
    pub name: String,
    pub symbol: String,
    pub decimals: i64,
    pub logo_url: String,
    pub protocol_id: String,
    pub is_core: bool,
    pub price: V,
    pub amount: V,
    pub raw_amount: V,
    pub raw_amount_hex_str: String,
}

/// The access to the oracle: where it is and under which key it is asked.
#[derive(Debug)]
pub struct DebankOpenAPI {
    api_url: reqwest::Url,
    client: reqwest::Client,
    access_key: String,
}

/// The failure that a status code stands for; none for 200.
pub open spec fn status_error(status: u16) -> Option<DebankApiError> {
    if status == 200 {
        None
    } else if status == 401 {
        Some(DebankApiError::Unauthorized)
    } else if status == 403 {
        Some(DebankApiError::CapacityLimitExceeded)
    } else if status == 429 {
        Some(DebankApiError::RateLimitExceeded)
    } else {
        Some(DebankApiError::Unknown)
    }
}

/// Whether a chain's entry is one of the chains named by `chain_ids`.
pub open spec fn on_chain_of<V>(chain_ids: Seq<String>) -> spec_fn(ChainBalance<V>) -> bool {
    |entry: ChainBalance<V>| texts(chain_ids).contains(entry.id@)
}

/// The USD values of a list of chain entries, in its order.
pub open spec fn usd_values<V>(chain_list: Seq<ChainBalance<V>>) -> Seq<V> {
    chain_list.map_values(|entry: ChainBalance<V>| entry.usd_value)
}

/// The entries of `chain_list` whose chain is one of `chain_ids`, in the
/// order in which they came.
pub fn retain_chains<V>(chain_list: Vec<ChainBalance<V>>, chain_ids: &Vec<String>) -> (kept: Vec<
    ChainBalance<V>,
>)
    ensures
        kept@ == chain_list@.filter(on_chain_of(chain_ids@)),
{
    let ghost all = chain_list@;
    let ghost wanted = on_chain_of::<V>(chain_ids@);
    let mut kept: Vec<ChainBalance<V>> = Vec::new();
    proof {
        reveal(Seq::filter);
    }
    for entry in it: chain_list
        invariant
            it.seq() == all,
            wanted == on_chain_of::<V>(chain_ids@),
            kept@ == all.take(it.index() as int).filter(wanted),
    {
        proof {
            reveal(Seq::filter);
            let upto = all.take(it.index() + 1);
            assert(upto.drop_last() == all.take(it.index() as int));
        }
        if contains_text(chain_ids, entry.id.as_str()) {
            kept.push(entry);
        }
    }
    proof {
        assert(all.take(all.len() as int) == all);
    }
    kept
}

/// The USD values of `chain_list`, in its order.
fn usd_values_of<V: Copy>(chain_list: &Vec<ChainBalance<V>>) -> (values: Vec<V>)
    ensures
        values@ == usd_values(chain_list@),
{
    let mut values: Vec<V> = Vec::new();
    let mut i: usize = 0;
    while i < chain_list.len()
        invariant
            i <= chain_list.len(),
            values@ == usd_values(chain_list@.take(i as int)),
        decreases chain_list.len() - i,
    {
        values.push(chain_list[i].usd_value);
        i += 1;
    }
    values
}

impl DebankOpenAPI {
    pub fn new(client: reqwest::Client, api_url: reqwest::Url, access_key: &str) -> (api: Self)
        ensures
            api.access_key()@ == access_key@,
            api.api_url() == api_url,
            api.client() == client,
    {
        Self { api_url, client, access_key: access_key.to_owned() }
    }

    /// The key under which the oracle is asked.
    pub closed spec fn access_key(&self) -> String {
        self.access_key
    }

    /// The base URL of the oracle.
    pub closed spec fn api_url(&self) -> reqwest::Url {
        self.api_url
    }

    /// The client that sends the requests.
    pub closed spec fn client(&self) -> reqwest::Client {
        self.client
    }

    /// The client and the URL to send a request with.
    pub fn endpoint(&self) -> (r: (&reqwest::Client, &reqwest::Url))
        ensures
            *r.0 == self.client(),
            *r.1 == self.api_url(),
    {
        (&self.client, &self.api_url)
    }

    /// The request for `path` with `query`, under the access key.
    fn request(&self, path: &str, query: Vec<(String, String)>) -> (request: ApiRequest)
        ensures
            request@ == (ApiRequestView {
                path: Some(path@),
                headers: seq![("AccessKey"@, self.access_key()@)],
                query: text_pairs(query@),
            }),
    {
        let mut headers: Vec<(String, String)> = Vec::new();
        headers.push(pair("AccessKey", self.access_key.as_str()));
        proof {
            assert(text_pairs(headers@) =~= seq![("AccessKey"@, self.access_key()@)]);
        }
        ApiRequest { path: Some(path.to_owned()), headers, query }
    }

    /// Reads the status code of an answer: 200 lets the answer through, any
    /// other code is the failure that [`status_error`] gives.
    pub fn handle_debank_response(&self, status: u16) -> (r: Result<(), DebankApiError>)
        ensures
            r == match status_error(status) {
                None => Ok::<(), DebankApiError>(()),
                Some(e) => Err::<(), DebankApiError>(e),
            },
    {
        if status != 200 {
            return match status {
                401 => Err(DebankApiError::Unauthorized),
                403 => Err(DebankApiError::CapacityLimitExceeded),
                429 => Err(DebankApiError::RateLimitExceeded),
                _ => Err(DebankApiError::Unknown),
            };
        } else {
            Ok(())
        }
    }

    /// The request for the balance of the token `token_id` that the account
    /// `id` holds on `chain_id`.
    pub fn token_balance_request(&self, id: &str, chain_id: &str, token_id: &str) -> (request:
        ApiRequest)
        ensures
            request@ == (ApiRequestView {
                path: Some("/v1/user/token"@),
                headers: seq![("AccessKey"@, self.access_key()@)],
                query: seq![("id"@, id@), ("chain_id"@, chain_id@), ("token_id"@, token_id@)],
            }),
    {
        let mut query: Vec<(String, String)> = Vec::new();
        query.push(pair("id", id));
        query.push(pair("chain_id", chain_id));
        query.push(pair("token_id", token_id));
        proof {
            assert(text_pairs(query@) =~= seq![
                ("id"@, id@),
                ("chain_id"@, chain_id@),
                ("token_id"@, token_id@),
            ]);
        }
        self.request("/v1/user/token", query)
    }

    /// The request for what the account `id` holds on every chain.
    pub fn muti_chain_balance_request(&self, id: &str) -> (request: ApiRequest)
        ensures
            request@ == (ApiRequestView {
                path: Some("/v1/user/total_balance"@),
                headers: seq![("AccessKey"@, self.access_key()@)],
                query: seq![("id"@, id@)],
            }),
    {
        let mut query: Vec<(String, String)> = Vec::new();
        query.push(pair("id", id));
        proof {
            assert(text_pairs(query@) =~= seq![("id"@, id@)]);
        }
        self.request("/v1/user/total_balance", query)
    }

    /// The request for what the account `id` holds on `chain_id`.
    pub fn chain_balance_request(&self, id: &str, chain_id: &str) -> (request: ApiRequest)
        ensures
            request@ == (ApiRequestView {
                path: Some("/v1/user/chain_balance"@),
                headers: seq![("AccessKey"@, self.access_key()@)],
                query: seq![("id"@, id@), ("chain_id"@, chain_id@)],
            }),
    {
        let mut query: Vec<(String, String)> = Vec::new();
        query.push(pair("id", id));
        query.push(pair("chain_id", chain_id));
        proof {
            assert(text_pairs(query@) =~= seq![("id"@, id@), ("chain_id"@, chain_id@)]);
        }
        self.request("/v1/user/chain_balance", query)
    }

    /// get the total balance on provide chains.
    ///
    /// Of the oracle's answer `res` the entries of the chains in `chain_ids`
    /// stay, in their order. The total that the oracle reported is dropped:
    /// the total returned is the sum of the entries that stay, added to
    /// `zero` through `plus`, first to last.
    pub fn muti_chain_balance<V: Copy, F: Fn(V, V) -> V>(
        &self,
        res: DebankTotalBalance<V>,
        chain_ids: &Vec<String>,
        zero: V,
        plus: &F,
    ) -> (balance: DebankTotalBalance<V>)
        requires
            forall|a: V, b: V| plus.requires((a, b)),
        ensures
            balance.chain_list@ == res.chain_list@.filter(on_chain_of(chain_ids@)),
            forall|i: int|
                0 <= i < balance.chain_list@.len() ==> texts(chain_ids@).contains(
                    #[trigger] balance.chain_list@[i].id@,
                ),
            sums_to(*plus, zero, usd_values(balance.chain_list@), balance.total_usd_value),
    {
        let chain_list = retain_chains(res.chain_list, chain_ids);
        let values = usd_values_of(&chain_list);
        let total_usd_value = sum(&values, zero, plus);
        proof {
            let wanted = on_chain_of::<V>(chain_ids@);
            assert forall|i: int| 0 <= i < chain_list@.len() implies texts(chain_ids@).contains(
                #[trigger] chain_list@[i].id@,
            ) by {
                res.chain_list@.lemma_filter_pred(wanted, i);
            }
        }
        DebankTotalBalance { total_usd_value, chain_list }
    }
}

} // verus!
