//! The one error of the gateway, made of those of its collaborators.

use vstd::prelude::*;
use vstd::std_specs::convert::FromSpecImpl;
use crate::debank::openapi::DebankApiError;
use crate::etherscan::EtherscanApiError;
use crate::storage::StorageError;

verus! {

/// `serde_json::Error`, a failure to write or read JSON. Carried, never
/// read.
#[verifier::external_type_specification]
#[verifier::external_body]
pub struct ExJsonError(serde_json::error::Error);

/// Why the gateway gave no answer.
#[derive(Debug)]
pub enum ApiError {
    AssetApiError(DebankApiError),
    StorageError(StorageError),
    AccountApiError(EtherscanApiError),
    SerdeJson(serde_json::error::Error),
}

impl From<DebankApiError> for ApiError {
    fn from(e: DebankApiError) -> (r: Self) {
        ApiError::AssetApiError(e)
    }
}

impl FromSpecImpl<DebankApiError> for ApiError {
    open spec fn obeys_from_spec() -> bool {
        true
    }

    open spec fn from_spec(e: DebankApiError) -> Self {
        ApiError::AssetApiError(e)
    }
}

impl From<StorageError> for ApiError {
    fn from(e: StorageError) -> (r: Self) {
        ApiError::StorageError(e)
    }
}

impl FromSpecImpl<StorageError> for ApiError {
    open spec fn obeys_from_spec() -> bool {
        true
    }

    open spec fn from_spec(e: StorageError) -> Self {
        ApiError::StorageError(e)
    }
}

impl From<EtherscanApiError> for ApiError {
    fn from(e: EtherscanApiError) -> (r: Self) {
        ApiError::AccountApiError(e)
    }
}

impl FromSpecImpl<EtherscanApiError> for ApiError {
    open spec fn obeys_from_spec() -> bool {
        true
    }

    open spec fn from_spec(e: EtherscanApiError) -> Self {
        ApiError::AccountApiError(e)
    }
}

impl From<serde_json::error::Error> for ApiError {
    fn from(e: serde_json::error::Error) -> (r: Self) {
        ApiError::SerdeJson(e)
    }
}

impl FromSpecImpl<serde_json::error::Error> for ApiError {
    open spec fn obeys_from_spec() -> bool {
        true
    }

    open spec fn from_spec(e: serde_json::error::Error) -> Self {
        ApiError::SerdeJson(e)
    }
}

impl ApiError {
    /// The HTTP status under which the failure is reported: every kind is
    /// an internal server error.
    pub fn status(&self) -> (code: u16)
        ensures
            code == 500,
    {
        500
    }
}

} // verus!
