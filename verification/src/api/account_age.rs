//! The age of an account, resolved once: read from the store, or asked of the
//! age oracle and then written to the store.
//!
//! The question is a state that says what is to be done next, and a function
//! that takes the state and the outcome of that and gives the next state.
//! Whoever runs it does what the state says, and nothing else.

use vstd::prelude::*;
use crate::api::error::ApiError;
use crate::api::user::{AccountInfo, QueryWithId};
use crate::etherscan::EtherscanApiError;
use crate::storage::user::{user_key, UserInfo};
use crate::storage::StorageError;
use crate::text::lowercase;

verus! {

/// A record of the store by its texts.
pub struct UserInfoView {
    pub id: Seq<char>,
    pub activation_time: i64,
}

impl View for UserInfo {
    type V = UserInfoView;

    open spec fn view(&self) -> UserInfoView {
        UserInfoView { id: self.id@, activation_time: self.activation_time }
    }
}

/// How far the question after the age of an account has come: what is to be
/// done next, or the answer.
#[derive(Debug)]
pub enum AccountInfoState {
    /// Read the record kept under `user_id`.
    LoadUserInfo { id: String, user_id: String },
    /// No record: ask the age oracle for the first transaction of `id`.
    FetchAccountAge { id: String, user_id: String },
    /// The oracle has answered: write the record of `user_id`.
    SetUserInfo { user_id: String, activation_time: i64 },
    /// Answer with `result`. `unsaved` holds the failure of the write, if the
    /// record could not be written: the next question after this account
    /// will ask the oracle again.
    Respond { result: Result<AccountInfo, ApiError>, unsaved: Option<StorageError> },
}

/// An [`AccountInfoState`] by its texts.
pub enum AccountInfoStateView {
    LoadUserInfo { id: Seq<char>, user_id: Seq<char> },
    FetchAccountAge { id: Seq<char>, user_id: Seq<char> },
    SetUserInfo { user_id: Seq<char>, activation_time: i64 },
    Respond { result: Result<AccountInfo, ApiError>, unsaved: Option<StorageError> },
}

impl View for AccountInfoState {
    type V = AccountInfoStateView;

    open spec fn view(&self) -> AccountInfoStateView {
        match *self {
            AccountInfoState::LoadUserInfo { id, user_id } => AccountInfoStateView::LoadUserInfo {
                id: id@,
                user_id: user_id@,
            },
            AccountInfoState::FetchAccountAge {
                id,
                user_id,
            } => AccountInfoStateView::FetchAccountAge { id: id@, user_id: user_id@ },
            AccountInfoState::SetUserInfo {
                user_id,
                activation_time,
            } => AccountInfoStateView::SetUserInfo { user_id: user_id@, activation_time },
            AccountInfoState::Respond { result, unsaved } => AccountInfoStateView::Respond {
                result,
                unsaved,
            },
        }
    }
}

/// What came of the step that an [`AccountInfoState`] asked for.
#[derive(Debug)]
pub enum AccountInfoEvent {
    /// The store was read: the record, `None` if there is none, or the
    /// failure of the store.
    UserInfoLoaded(Result<Option<UserInfo>, StorageError>),
    /// The age oracle was asked.
    AccountAgeFetched(Result<i64, EtherscanApiError>),
    /// The record was written, or could not be.
    UserInfoSet(Result<(), StorageError>),
}

/// An [`AccountInfoEvent`] by its texts.
pub enum AccountInfoEventView {
    UserInfoLoaded(Result<Option<UserInfoView>, StorageError>),
    AccountAgeFetched(Result<i64, EtherscanApiError>),
    UserInfoSet(Result<(), StorageError>),
}

impl View for AccountInfoEvent {
    type V = AccountInfoEventView;

    open spec fn view(&self) -> AccountInfoEventView {
        match *self {
            AccountInfoEvent::UserInfoLoaded(Ok(Some(info))) => AccountInfoEventView::UserInfoLoaded(
                Ok(Some(info@)),
            ),
            AccountInfoEvent::UserInfoLoaded(Ok(None)) => AccountInfoEventView::UserInfoLoaded(
                Ok(None),
            ),
            AccountInfoEvent::UserInfoLoaded(Err(e)) => AccountInfoEventView::UserInfoLoaded(
                Err(e),
            ),
            AccountInfoEvent::AccountAgeFetched(age) => AccountInfoEventView::AccountAgeFetched(
                age,
            ),
            AccountInfoEvent::UserInfoSet(set) => AccountInfoEventView::UserInfoSet(set),
        }
    }
}

/// The state in which the question after the age of `id` begins.
pub open spec fn account_info_start(id: Seq<char>) -> AccountInfoStateView {
    AccountInfoStateView::LoadUserInfo { id, user_id: lowercase(id) }
}

/// The state that follows `state` on `event`.
///
/// A record that is found is the answer, and nothing else is asked. Without
/// a record the oracle is asked, its answer written and returned; that the
/// write fails does not change the answer. A failure of the read or of the
/// oracle is the answer at once. An event that the state did not ask for
/// changes nothing.
pub open spec fn account_info_next(
    state: AccountInfoStateView,
    event: AccountInfoEventView,
) -> AccountInfoStateView {
    match (state, event) {
        (
            AccountInfoStateView::LoadUserInfo { id, user_id },
            AccountInfoEventView::UserInfoLoaded(loaded),
        ) => match loaded {
            Ok(Some(info)) => AccountInfoStateView::Respond {
                result: Ok(AccountInfo { activation_time: info.activation_time }),
                unsaved: None,
            },
            Ok(None) => AccountInfoStateView::FetchAccountAge { id, user_id },
            Err(e) => AccountInfoStateView::Respond {
                result: Err(ApiError::StorageError(e)),
                unsaved: None,
            },
        },
        (
            AccountInfoStateView::FetchAccountAge { id, user_id },
            AccountInfoEventView::AccountAgeFetched(age),
        ) => match age {
            Ok(activation_time) => AccountInfoStateView::SetUserInfo { user_id, activation_time },
            Err(e) => AccountInfoStateView::Respond {
                result: Err(ApiError::AccountApiError(e)),
                unsaved: None,
            },
        },
        (
            AccountInfoStateView::SetUserInfo { user_id, activation_time },
            AccountInfoEventView::UserInfoSet(set),
        ) => AccountInfoStateView::Respond {
            result: Ok(AccountInfo { activation_time }),
            unsaved: match set {
                Ok(_) => None,
                Err(e) => Some(e),
            },
        },
        _ => state,
    }
}

impl AccountInfoState {
    /// Begins the question `info`: the first thing to do is to read the
    /// record kept under the lower-cased address.
    pub fn new(info: QueryWithId) -> (state: Self)
        ensures
            state@ == account_info_start(info.id@),
    {
        let user_id = user_key(info.id.as_str());
        AccountInfoState::LoadUserInfo { id: info.id, user_id }
    }
}

/// Takes the question after the age of an account one step further: from
/// `state` and the outcome `event` of what it asked for to the next state.
pub fn account_info(state: AccountInfoState, event: AccountInfoEvent) -> (next: AccountInfoState)
    ensures
        next@ == account_info_next(state@, event@),
{
    match (state, event) {
        (
            AccountInfoState::LoadUserInfo { id, user_id },
            AccountInfoEvent::UserInfoLoaded(loaded),
        ) => match loaded {
            Ok(Some(user_info)) => AccountInfoState::Respond {
                result: Ok(AccountInfo { activation_time: user_info.activation_time }),
                unsaved: None,
            },
            Ok(None) => AccountInfoState::FetchAccountAge { id, user_id },
            Err(e) => AccountInfoState::Respond {
                result: Err(ApiError::StorageError(e)),
                unsaved: None,
            },
        },
        (
            AccountInfoState::FetchAccountAge { id: _, user_id },
            AccountInfoEvent::AccountAgeFetched(age),
        ) => match age {
            Ok(activation_time) => AccountInfoState::SetUserInfo { user_id, activation_time },
            Err(e) => AccountInfoState::Respond {
                result: Err(ApiError::AccountApiError(e)),
                unsaved: None,
            },
        },
        (
            AccountInfoState::SetUserInfo { user_id: _, activation_time },
            AccountInfoEvent::UserInfoSet(set),
        ) => AccountInfoState::Respond {
            result: Ok(AccountInfo { activation_time }),
            unsaved: match set {
                Ok(_) => None,
                Err(e) => Some(e),
            },
        },
        (state, _) => state,
    }
}

/// The surroundings of the question after an age, where nothing fails to
/// answer: the records that the store holds, by their keys, and what the age
/// oracle says of each address.
pub struct AgeWorld {
    pub records: Map<Seq<char>, i64>,
    pub oracle: spec_fn(Seq<char>) -> Result<i64, EtherscanApiError>,
}

/// What came of a question after an age: the answer, how often the oracle
/// was asked, what was written to the store, in order, and the records that
/// the store holds afterwards.
pub struct AgeServed {
    pub result: Result<AccountInfo, ApiError>,
    pub oracle_calls: nat,
    pub writes: Seq<(Seq<char>, i64)>,
    pub records: Map<Seq<char>, i64>,
}

/// How many steps a state is from the answer, at most.
pub open spec fn account_info_steps(state: AccountInfoStateView) -> nat {
    match state {
        AccountInfoStateView::LoadUserInfo { .. } => 3,
        AccountInfoStateView::FetchAccountAge { .. } => 2,
        AccountInfoStateView::SetUserInfo { .. } => 1,
        AccountInfoStateView::Respond { .. } => 0,
    }
}

/// Runs the question from `state` in `world`: each step that a state asks
/// for is done on the world, and its outcome handed to
/// [`account_info_next`], until the answer is there.
pub open spec fn account_info_served(state: AccountInfoStateView, world: AgeWorld) -> AgeServed
    decreases account_info_steps(state),
{
    match state {
        AccountInfoStateView::LoadUserInfo { id, user_id } => {
            let found = if world.records.contains_key(user_id) {
                Some(UserInfoView { id: user_id, activation_time: world.records[user_id] })
            } else {
                None
            };
            account_info_served(
                account_info_next(state, AccountInfoEventView::UserInfoLoaded(Ok(found))),
                world,
            )
        },
        AccountInfoStateView::FetchAccountAge { id, user_id } => {
            let rest = account_info_served(
                account_info_next(state, AccountInfoEventView::AccountAgeFetched((world.oracle)(id))),
                world,
            );
            AgeServed { oracle_calls: rest.oracle_calls + 1, ..rest }
        },
        AccountInfoStateView::SetUserInfo { user_id, activation_time } => {
            let rest = account_info_served(
                account_info_next(state, AccountInfoEventView::UserInfoSet(Ok(()))),
                AgeWorld { records: world.records.insert(user_id, activation_time), ..world },
            );
            AgeServed { writes: seq![(user_id, activation_time)] + rest.writes, ..rest }
        },
        AccountInfoStateView::Respond { result, unsaved } => AgeServed {
            result,
            oracle_calls: 0,
            writes: Seq::empty(),
            records: world.records,
        },
    }
}

/// An account of which the store holds no record is asked of the oracle
/// exactly once. Where the oracle answers, its answer is returned and written
/// exactly once, under the lower-cased address; where it fails, its failure
/// is returned and nothing is written.
pub proof fn lemma_cold_account_asks_oracle_once(id: Seq<char>, world: AgeWorld)
    ensures
        !world.records.contains_key(lowercase(id)) ==> {
            let served = account_info_served(account_info_start(id), world);
            &&& served.oracle_calls == 1
            &&& match (world.oracle)(id) {
                Ok(t) => {
                    &&& served.result == Ok::<AccountInfo, ApiError>(
                        AccountInfo { activation_time: t },
                    )
                    &&& served.writes == seq![(lowercase(id), t)]
                    &&& served.records == world.records.insert(lowercase(id), t)
                },
                Err(e) => {
                    &&& served.result == Err::<AccountInfo, ApiError>(ApiError::AccountApiError(e))
                    &&& served.writes == Seq::<(Seq<char>, i64)>::empty()
                    &&& served.records == world.records
                },
            }
        },
{
    reveal_with_fuel(account_info_served, 4);
}

/// An account of which the store holds a record is answered from the record:
/// the oracle is not asked, nothing is written, and the store stays as it
/// is. The record counts for every spelling of the address that has the same
/// lower-cased form.
pub proof fn lemma_warm_account_asks_no_oracle(id: Seq<char>, world: AgeWorld)
    ensures
        world.records.contains_key(lowercase(id)) ==> {
            let served = account_info_served(account_info_start(id), world);
            &&& served.result == Ok::<AccountInfo, ApiError>(
                AccountInfo { activation_time: world.records[lowercase(id)] },
            )
            &&& served.oracle_calls == 0
            &&& served.writes == Seq::<(Seq<char>, i64)>::empty()
            &&& served.records == world.records
        },
{
    reveal_with_fuel(account_info_served, 2);
}

/// The first question after an account without a record asks the oracle
/// once and writes its answer once; a second question after the same
/// account, in the same or another spelling, is answered with the same time
/// and asks the oracle no more.
pub proof fn lemma_account_age_is_resolved_once(id: Seq<char>, again: Seq<char>, world: AgeWorld)
    ensures
        !world.records.contains_key(lowercase(id)) && lowercase(again) == lowercase(id) ==> {
            let first = account_info_served(account_info_start(id), world);
            let second = account_info_served(
                account_info_start(again),
                AgeWorld { records: first.records, ..world },
            );
            &&& first.oracle_calls == 1
            &&& (world.oracle)(id) matches Ok(t) ==> {
                &&& first.result == Ok::<AccountInfo, ApiError>(AccountInfo { activation_time: t })
                &&& first.writes == seq![(lowercase(id), t)]
                &&& second.result == first.result
                &&& second.oracle_calls == 0
                &&& second.writes == Seq::<(Seq<char>, i64)>::empty()
            }
        },
{
    lemma_cold_account_asks_oracle_once(id, world);
    if !world.records.contains_key(lowercase(id)) && lowercase(again) == lowercase(id) {
        let first = account_info_served(account_info_start(id), world);
        lemma_warm_account_asks_no_oracle(again, AgeWorld { records: first.records, ..world });
    }
}

} // verus!
