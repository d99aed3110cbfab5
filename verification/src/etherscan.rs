//! The age oracle: a ledger-history service that knows the first transaction
//! of an address.

use vstd::prelude::*;
use vstd::std_specs::convert::FromSpecImpl;
use crate::text::{decimal_i64, parse_i64, same_text, starts_with, text_pairs};
use crate::transport::{pair, ApiRequest, ApiRequestView};

verus! {

/// Why the oracle gave no time stamp.
#[derive(Debug)]
pub enum EtherscanApiError {
    /// A success record whose status is neither `"0"` nor `"1"`; holds the
    /// status.
    BadStatusCode(String),
    /// The request could not be sent or its answer not read.
    Reqwest(reqwest::Error),
    /// The oracle refused the request for want of quota.
    RateLimitExceeded,
    /// Any other error record; holds what the oracle wrote as the result.
    Unknown(String),
    /// A success record that announces a transaction and holds none, or whose
    /// first time stamp is no 64-bit decimal number: holds the time stamp
    /// that was refused, `None` where the transaction is missing.
    Decode(Option<String>),
}

impl From<reqwest::Error> for EtherscanApiError {
    fn from(e: reqwest::Error) -> (r: Self) {
        EtherscanApiError::Reqwest(e)
    }
}

impl FromSpecImpl<reqwest::Error> for EtherscanApiError {
    open spec fn obeys_from_spec() -> bool {
        true
    }

    open spec fn from_spec(e: reqwest::Error) -> Self {
        EtherscanApiError::Reqwest(e)
    }
}

/// One transaction of the listing, by the time it was mined.
#[derive(Debug)]
pub struct NormalTransaction {
    /// Seconds since the epoch, in decimal.
    pub time_stamp: String,
}

/// The envelope of an answer that carries a result.
#[derive(Debug, Clone)]
pub struct Response<T> {
    pub status: String,
    pub message: String,
    pub result: T,
}

/// An answer of the oracle: a record with a result of the asked kind, or an
/// error record whose result is a sentence.
#[derive(Debug, Clone)]
pub enum ResponseData<T> {
    Success(Response<T>),
    Error { status: String, message: String, result: String },
}

/// The access to the oracle: where it is and under which key it is asked.
#[derive(Debug)]
pub struct EtherscanAPi {
    /// Client that executes HTTP requests
    client: reqwest::Client,
    /// Etherscan API key
    api_key: String,
    api_url: reqwest::Url,
}

/// The query that lists the transactions of `id` oldest first, one to a page,
/// and asks for the first page.
pub open spec fn account_age_query(api_key: Seq<char>, id: Seq<char>) -> Seq<
    (Seq<char>, Seq<char>),
> {
    seq![
        ("module"@, "account"@),
        ("action"@, "txlist"@),
        ("address"@, id),
        ("startblock"@, "0"@),
        ("endblock"@, "99999999"@),
        ("page"@, "1"@),
        ("offset"@, "1"@),
        ("sort"@, "asc"@),
        ("api_key"@, api_key),
    ]
}

/// Whether the sentence of an error record says that the quota is used up.
pub open spec fn is_rate_limit_notice(result: Seq<char>) -> bool {
    "Max rate limit reached"@.is_prefix_of(result)
}

/// Whether `age` is what the answer `res` says of the account: the time
/// stamp of its first transaction, the greatest 64-bit integer where it has
/// none, or the reason why neither can be told.
pub open spec fn is_account_age(
    res: ResponseData<Vec<NormalTransaction>>,
    age: Result<i64, EtherscanApiError>,
) -> bool {
    match res {
        ResponseData::Error { status, message, result } => {
            if is_rate_limit_notice(result@) {
                age == Err::<i64, EtherscanApiError>(EtherscanApiError::RateLimitExceeded)
            } else {
                age == Err::<i64, EtherscanApiError>(EtherscanApiError::Unknown(result))
            }
        },
        ResponseData::Success(record) => {
            if record.status@ == "0"@ {
                age == Ok::<i64, EtherscanApiError>(i64::MAX)
            } else if record.status@ == "1"@ {
                if record.result@.len() == 0 {
                    age == Err::<i64, EtherscanApiError>(EtherscanApiError::Decode(None))
                } else {
                    match decimal_i64(record.result@[0].time_stamp@) {
                        Some(t) => age == Ok::<i64, EtherscanApiError>(t),
                        None => age matches Err(EtherscanApiError::Decode(Some(refused)))
                            && refused@ == record.result@[0].time_stamp@,
                    }
                }
            } else {
                age == Err::<i64, EtherscanApiError>(
                    EtherscanApiError::BadStatusCode(record.status),
                )
            }
        },
    }
}

impl EtherscanAPi {
    pub fn new(client: reqwest::Client, api_key: &str, api_url: reqwest::Url) -> (api: Self)
        ensures
            api.api_key()@ == api_key@,
            api.api_url() == api_url,
            api.client() == client,
    {
        Self { client, api_key: api_key.to_owned(), api_url }
    }

    /// The key under which the oracle is asked.
    pub closed spec fn api_key(&self) -> String {
        self.api_key
    }

    /// The base URL of the oracle.
    pub closed spec fn api_url(&self) -> reqwest::Url {
        self.api_url
    }

    /// The client that sends the requests.
    pub closed spec fn client(&self) -> reqwest::Client {
        self.client
    }

    /// The client and the URL to send a request with.
    pub fn endpoint(&self) -> (r: (&reqwest::Client, &reqwest::Url))
        ensures
            *r.0 == self.client(),
            *r.1 == self.api_url(),
    {
        (&self.client, &self.api_url)
    }

    /// The request that asks for the first transaction of `id`.
    pub fn account_age_request(&self, id: &str) -> (request: ApiRequest)
        ensures
            request@ == (ApiRequestView {
                path: None,
                headers: seq![("accept"@, "application/json"@)],
                query: account_age_query(self.api_key()@, id@),
            }),
    {
        let mut headers: Vec<(String, String)> = Vec::new();
        headers.push(pair("accept", "application/json"));
        let mut query: Vec<(String, String)> = Vec::new();
        query.push(pair("module", "account"));
        query.push(pair("action", "txlist"));
        query.push(pair("address", id));
        query.push(pair("startblock", "0"));
        query.push(pair("endblock", "99999999"));
        query.push(pair("page", "1"));
        query.push(pair("offset", "1"));
        query.push(pair("sort", "asc"));
        query.push(pair("api_key", self.api_key.as_str()));
        proof {
            assert(text_pairs(headers@) =~= seq![("accept"@, "application/json"@)]);
            assert(text_pairs(query@) =~= account_age_query(self.api_key()@, id@));
        }
        ApiRequest { path: None, headers, query }
    }

    /// account_age will return the timestamp when the account send its first tx
    ///
    /// `res` is the answer of the oracle to [`Self::account_age_request`].
    pub fn account_age(&self, res: ResponseData<Vec<NormalTransaction>>) -> (age: Result<
        i64,
        EtherscanApiError,
    >)
        ensures
            is_account_age(res, age),
    {
        match res {
            ResponseData::Error { status: _, message: _, result } => {
                if starts_with(result.as_str(), "Max rate limit reached") {
                    Err(EtherscanApiError::RateLimitExceeded)
                } else {
                    Err(EtherscanApiError::Unknown(result))
                }
            },
            ResponseData::Success(record) => {
                if same_text(record.status.as_str(), "0") {
                    Ok(i64::MAX)
                } else if same_text(record.status.as_str(), "1") {
                    let mut result = record.result;
                    if result.len() == 0 {
                        Err(EtherscanApiError::Decode(None))
                    } else {
                        let first = result.swap_remove(0);
                        match parse_i64(first.time_stamp.as_str()) {
                            Some(t) => Ok(t),
                            None => Err(EtherscanApiError::Decode(Some(first.time_stamp))),
                        }
                    }
                } else {
                    Err(EtherscanApiError::BadStatusCode(record.status))
                }
            },
        }
    }
}

} // verus!
