//! Account records, kept under the lower-cased address.

use vstd::prelude::*;
use crate::text::{lowercase, to_lowercase};

verus! {

/// The record of an account: when it sent its first transaction.
#[derive(Debug)]
pub struct UserInfo {
    pub id: String,
    pub activation_time: i64,
}

/// The key under which the record of `user_id` is kept: the address in
/// lower case. The providers take an address in any case, the store does not.
pub fn user_key(user_id: &str) -> (key: String)
    ensures
        key@ == lowercase(user_id@),
{
    to_lowercase(user_id)  // use address in normalized format
}

} // verus!
