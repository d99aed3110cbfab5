//! How much of a named token an account holds over all chains: the chains
//! that have the token are read from the store, the balance oracle is asked
//! for each, and the amounts are added.
//!
//! The question is a state that says what is to be done next, and a function
//! that takes the state and the outcome of that and gives the next state.
//! Whoever runs it does what the state says, and nothing else.

use vstd::prelude::*;
use crate::amount::{sum, sums_to};
use crate::api::error::ApiError;
use crate::api::user::QueryWithTokenName;
use crate::debank::openapi::{DebankApiError, DebankTokenBalance};
use crate::storage::StorageError;
use crate::text::text_pairs;

verus! {

/// How much of a named token an account holds, over all chains.
#[derive(Debug)]
pub struct TokenAmount<V> {
    pub amount: V,
}

/// How far the question after a named token has come: what is to be done
/// next, or the answer.
#[derive(Debug)]
pub enum TokenAmountState<V> {
    /// Read on which chains the token named `token_name` exists, and under
    /// which identifier.
    LoadTokenIds { id: String, token_name: String },
    /// Ask the balance oracle what `id` holds of `token_id` on `chain_id`.
    /// `rest` holds the pairs of chain and token that are still to be asked,
    /// `balances` what was answered so far, both in order.
    FetchTokenBalance {
        id: String,
        chain_id: String,
        token_id: String,
        rest: Vec<(String, String)>,
        balances: Vec<DebankTokenBalance<V>>,
    },
    /// Answer: the balances of all the chains that have the token, in the
    /// order in which the store named them, or the first failure.
    Respond { result: Result<Vec<DebankTokenBalance<V>>, ApiError> },
}

/// A [`TokenAmountState`] by its texts and sequences.
pub enum TokenAmountStateView<V> {
    LoadTokenIds { id: Seq<char>, token_name: Seq<char> },
    FetchTokenBalance {
        id: Seq<char>,
        chain_id: Seq<char>,
        token_id: Seq<char>,
        rest: Seq<(Seq<char>, Seq<char>)>,
        balances: Seq<DebankTokenBalance<V>>,
    },
    Respond { result: Result<Seq<DebankTokenBalance<V>>, ApiError> },
}

impl<V> View for TokenAmountState<V> {
    type V = TokenAmountStateView<V>;

    open spec fn view(&self) -> TokenAmountStateView<V> {
        match *self {
            TokenAmountState::LoadTokenIds { id, token_name } => TokenAmountStateView::LoadTokenIds {
                id: id@,
                token_name: token_name@,
            },
            TokenAmountState::FetchTokenBalance {
                id,
                chain_id,
                token_id,
                rest,
                balances,
            } => TokenAmountStateView::FetchTokenBalance {
                id: id@,
                chain_id: chain_id@,
                token_id: token_id@,
                rest: text_pairs(rest@),
                balances: balances@,
            },
            TokenAmountState::Respond { result: Ok(balances) } => TokenAmountStateView::Respond {
                result: Ok(balances@),
            },
            TokenAmountState::Respond { result: Err(e) } => TokenAmountStateView::Respond {
                result: Err(e),
            },
        }
    }
}

/// What came of the step that a [`TokenAmountState`] asked for.
#[derive(Debug)]
pub enum TokenAmountEvent<V> {
    /// The store was read: the pairs of chain and token identifier, no chain
    /// twice, or the failure of the store.
    TokenIdsLoaded(Result<Vec<(String, String)>, StorageError>),
    /// The balance oracle was asked.
    TokenBalanceFetched(Result<DebankTokenBalance<V>, DebankApiError>),
}

/// A [`TokenAmountEvent`] by its texts.
pub enum TokenAmountEventView<V> {
    TokenIdsLoaded(Result<Seq<(Seq<char>, Seq<char>)>, StorageError>),
    TokenBalanceFetched(Result<DebankTokenBalance<V>, DebankApiError>),
}

impl<V> View for TokenAmountEvent<V> {
    type V = TokenAmountEventView<V>;

    open spec fn view(&self) -> TokenAmountEventView<V> {
        match *self {
            TokenAmountEvent::TokenIdsLoaded(Ok(token_ids)) => TokenAmountEventView::TokenIdsLoaded(
                Ok(text_pairs(token_ids@)),
            ),
            TokenAmountEvent::TokenIdsLoaded(Err(e)) => TokenAmountEventView::TokenIdsLoaded(
                Err(e),
            ),
            TokenAmountEvent::TokenBalanceFetched(fetched) => TokenAmountEventView::TokenBalanceFetched(
                fetched,
            ),
        }
    }
}

/// The state that asks for the first of `token_ids` with `balances` in hand,
/// or the answer `balances` where no pair is left to ask.
pub open spec fn token_amount_ask<V>(
    id: Seq<char>,
    token_ids: Seq<(Seq<char>, Seq<char>)>,
    balances: Seq<DebankTokenBalance<V>>,
) -> TokenAmountStateView<V> {
    if token_ids.len() == 0 {
        TokenAmountStateView::Respond { result: Ok(balances) }
    } else {
        TokenAmountStateView::FetchTokenBalance {
            id,
            chain_id: token_ids[0].0,
            token_id: token_ids[0].1,
            rest: token_ids.skip(1),
            balances,
        }
    }
}

/// The state in which the question after the token `token_name` of the
/// account `id` begins.
pub open spec fn token_amount_start<V>(id: Seq<char>, token_name: Seq<char>) -> TokenAmountStateView<
    V,
> {
    TokenAmountStateView::LoadTokenIds { id, token_name }
}

/// The state that follows `state` on `event`.
///
/// The chains that have the token are asked one after the other, in the
/// order in which the store named them, and each balance is kept. The first
/// failure, of the store or of the oracle, is the answer at once: what was
/// gathered until then is dropped and no chain is asked after it. An event
/// that the state did not ask for changes nothing.
pub open spec fn token_amount_next<V>(
    state: TokenAmountStateView<V>,
    event: TokenAmountEventView<V>,
) -> TokenAmountStateView<V> {
    match (state, event) {
        (
            TokenAmountStateView::LoadTokenIds { id, token_name },
            TokenAmountEventView::TokenIdsLoaded(loaded),
        ) => match loaded {
            Ok(token_ids) => token_amount_ask(id, token_ids, Seq::empty()),
            Err(e) => TokenAmountStateView::Respond { result: Err(ApiError::StorageError(e)) },
        },
        (
            TokenAmountStateView::FetchTokenBalance { id, chain_id, token_id, rest, balances },
            TokenAmountEventView::TokenBalanceFetched(fetched),
        ) => match fetched {
            Ok(balance) => token_amount_ask(id, rest, balances.push(balance)),
            Err(e) => TokenAmountStateView::Respond { result: Err(ApiError::AssetApiError(e)) },
        },
        _ => state,
    }
}

impl<V> TokenAmountState<V> {
    /// Begins the question `info`: the first thing to do is to read the
    /// token identifiers of the named token.
    pub fn new(info: QueryWithTokenName) -> (state: Self)
        ensures
            state@ == token_amount_start::<V>(info.id@, info.token_name@),
    {
        TokenAmountState::LoadTokenIds { id: info.id, token_name: info.token_name }
    }

    /// The state that asks for the first of `token_ids`, or the answer.
    fn ask(id: String, token_ids: Vec<(String, String)>, balances: Vec<DebankTokenBalance<V>>) -> (state:
        Self)
        ensures
            state@ == token_amount_ask(id@, text_pairs(token_ids@), balances@),
    {
        let mut rest = token_ids;
        if rest.len() == 0 {
            TokenAmountState::Respond { result: Ok(balances) }
        } else {
            let ghost all = rest@;
            let (chain_id, token_id) = rest.remove(0);
            proof {
                assert(text_pairs(rest@) =~= text_pairs(all).skip(1));
            }
            TokenAmountState::FetchTokenBalance { id, chain_id, token_id, rest, balances }
        }
    }
}

/// Takes the question after a named token one step further: from `state` and
/// the outcome `event` of what it asked for to the next state.
pub fn token_total_amount<V>(state: TokenAmountState<V>, event: TokenAmountEvent<V>) -> (next:
    TokenAmountState<V>)
    ensures
        next@ == token_amount_next(state@, event@),
{
    match (state, event) {
        (
            TokenAmountState::LoadTokenIds { id, token_name: _ },
            TokenAmountEvent::TokenIdsLoaded(loaded),
        ) => match loaded {
            Ok(token_ids) => TokenAmountState::ask(id, token_ids, Vec::new()),
            Err(e) => TokenAmountState::Respond { result: Err(ApiError::StorageError(e)) },
        },
        (
            TokenAmountState::FetchTokenBalance { id, chain_id: _, token_id: _, rest, balances },
            TokenAmountEvent::TokenBalanceFetched(fetched),
        ) => match fetched {
            Ok(balance) => {
                let mut balances = balances;
                balances.push(balance);
                TokenAmountState::ask(id, rest, balances)
            },
            Err(e) => TokenAmountState::Respond { result: Err(ApiError::AssetApiError(e)) },
        },
        (state, _) => state,
    }
}

/// The amounts of a list of token balances, in its order.
pub open spec fn amounts<V>(balances: Seq<DebankTokenBalance<V>>) -> Seq<V> {
    balances.map_values(|balance: DebankTokenBalance<V>| balance.amount)
}

/// The amounts of `balances`, in their order.
fn amounts_of<V: Copy>(balances: &Vec<DebankTokenBalance<V>>) -> (values: Vec<V>)
    ensures
        values@ == amounts(balances@),
{
    let mut values: Vec<V> = Vec::new();
    let mut i: usize = 0;
    while i < balances.len()
        invariant
            i <= balances.len(),
            values@ == amounts(balances@.take(i as int)),
        decreases balances.len() - i,
    {
        values.push(balances[i].amount);
        i += 1;
    }
    values
}

/// The amount held over all chains: the sum of the amounts of `balances`,
/// added to `zero` through `plus`, first to last; `zero` where there is no
/// balance.
pub fn total_amount<V: Copy, F: Fn(V, V) -> V>(
    balances: &Vec<DebankTokenBalance<V>>,
    zero: V,
    plus: &F,
) -> (total: TokenAmount<V>)
    requires
        forall|a: V, b: V| plus.requires((a, b)),
    ensures
        sums_to(*plus, zero, amounts(balances@), total.amount),
        balances@.len() == 0 ==> total.amount == zero,
{
    let values = amounts_of(balances);
    TokenAmount { amount: sum(&values, zero, plus) }
}

/// The surroundings of the question after a named token: what the store
/// answers for each name, and what the balance oracle answers for each
/// account, chain and token.
pub struct TokenWorld<V> {
    pub token_ids: spec_fn(Seq<char>) -> Result<Seq<(Seq<char>, Seq<char>)>, StorageError>,
    pub oracle: spec_fn(Seq<char>, Seq<char>, Seq<char>) -> Result<
        DebankTokenBalance<V>,
        DebankApiError,
    >,
}

/// What came of a question after a named token: the answer, and the pairs of
/// chain and token that the oracle was asked for, in order.
pub struct TokenServed<V> {
    pub result: Result<Seq<DebankTokenBalance<V>>, ApiError>,
    pub asked: Seq<(Seq<char>, Seq<char>)>,
}

impl<V> TokenWorld<V> {
    /// What the balance oracle answers when asked what `id` holds of the
    /// token of `pair` on the chain of `pair`.
    pub open spec fn balance(self, id: Seq<char>, pair: (Seq<char>, Seq<char>)) -> Result<
        DebankTokenBalance<V>,
        DebankApiError,
    > {
        (self.oracle)(id, pair.0, pair.1)
    }
}

/// Runs the question from `state` in `world`: each step that a state asks
/// for is done on the world, and its outcome handed to
/// [`token_amount_next`], until the answer is there.
pub open spec fn token_amount_served<V>(
    state: TokenAmountStateView<V>,
    world: TokenWorld<V>,
) -> TokenServed<V>
    decreases
            match state {
                TokenAmountStateView::LoadTokenIds { .. } => 2nat,
                TokenAmountStateView::FetchTokenBalance { .. } => 1nat,
                TokenAmountStateView::Respond { .. } => 0nat,
            },
            match state {
                TokenAmountStateView::FetchTokenBalance { rest, .. } => rest.len(),
                _ => 0nat,
            },
{
    match state {
        TokenAmountStateView::LoadTokenIds { id, token_name } => token_amount_served(
            token_amount_next(
                state,
                TokenAmountEventView::TokenIdsLoaded((world.token_ids)(token_name)),
            ),
            world,
        ),
        TokenAmountStateView::FetchTokenBalance { id, chain_id, token_id, rest, balances } => {
            let after = token_amount_served(
                token_amount_next(
                    state,
                    TokenAmountEventView::TokenBalanceFetched(
                        world.balance(id, (chain_id, token_id)),
                    ),
                ),
                world,
            );
            TokenServed { asked: seq![(chain_id, token_id)] + after.asked, ..after }
        },
        TokenAmountStateView::Respond { result } => TokenServed { result, asked: Seq::empty() },
    }
}

/// What comes of asking the pairs `pending` with `balances` in hand.
///
/// Where the oracle answers for every pair, every pair is asked once, in
/// order, and the answer holds `balances` and then the balance of each pair.
/// Where it fails for some pair, the answer is its first failure, and the
/// pair of that failure is the last that is asked.
proof fn lemma_token_amount_asked<V>(
    id: Seq<char>,
    pending: Seq<(Seq<char>, Seq<char>)>,
    balances: Seq<DebankTokenBalance<V>>,
    world: TokenWorld<V>,
)
    ensures
        ({
            let served = token_amount_served(token_amount_ask(id, pending, balances), world);
            &&& (forall|j: int| 0 <= j < pending.len() ==> (#[trigger] world.balance(id, pending[j])).is_ok())
                ==> {
                &&& served.asked == pending
                &&& served.result matches Ok(all)
                &&& all.len() == balances.len() + pending.len()
                &&& all.take(balances.len() as int) == balances
                &&& forall|j: int|
                    0 <= j < pending.len() ==> #[trigger] world.balance(id, pending[j]) == Ok::<
                        DebankTokenBalance<V>,
                        DebankApiError,
                    >(all[balances.len() + j])
            }
            &&& (exists|k: int| 0 <= k < pending.len() && (#[trigger] world.balance(id, pending[k])).is_err())
                ==> {
                &&& served.result matches Err(ApiError::AssetApiError(e))
                &&& 0 < served.asked.len() <= pending.len()
                &&& served.asked == pending.take(served.asked.len() as int)
                &&& world.balance(id, pending[served.asked.len() - 1]) == Err::<
                    DebankTokenBalance<V>,
                    DebankApiError,
                >(e)
                &&& forall|j: int|
                    0 <= j < served.asked.len() - 1 ==> (#[trigger] world.balance(
                        id,
                        pending[j],
                    )).is_ok()
            }
        }),
    decreases pending.len(),
{
    reveal_with_fuel(token_amount_served, 2);
    let served = token_amount_served(token_amount_ask(id, pending, balances), world);
    if pending.len() > 0 {
        let rest = pending.skip(1);
        if let Ok(balance) = world.balance(id, pending[0]) {
            let collected = balances.push(balance);
            let after = token_amount_served(token_amount_ask(id, rest, collected), world);
            lemma_token_amount_asked(id, rest, collected, world);
            if forall|j: int|
                0 <= j < pending.len() ==> (#[trigger] world.balance(id, pending[j])).is_ok() {
                assert forall|j: int| 0 <= j < rest.len() implies (#[trigger] world.balance(
                    id,
                    rest[j],
                )).is_ok() by {
                    assert(rest[j] == pending[j + 1]);
                }
                let all = after.result->Ok_0;
                assert(all[balances.len() as int] == all.take(
                    collected.len() as int,
                )[balances.len() as int]);
                assert forall|j: int| 0 <= j < pending.len() implies #[trigger] world.balance(
                    id,
                    pending[j],
                ) == Ok::<DebankTokenBalance<V>, DebankApiError>(all[balances.len() + j]) by {
                    if j > 0 {
                        assert(world.balance(id, rest[j - 1]) == Ok::<
                            DebankTokenBalance<V>,
                            DebankApiError,
                        >(all[collected.len() + (j - 1)]));
                    }
                }
            }
            if exists|k: int|
                0 <= k < pending.len() && (#[trigger] world.balance(id, pending[k])).is_err() {
                let k = choose|k: int|
                    0 <= k < pending.len() && (#[trigger] world.balance(id, pending[k])).is_err();
                assert(rest[k - 1] == pending[k]);
                let n = after.asked.len() as int;
                assert(served.asked =~= pending.take(n + 1));
                assert forall|j: int| 0 <= j < n implies (#[trigger] world.balance(
                    id,
                    pending[j],
                )).is_ok() by {
                    if j > 0 {
                        assert(rest[j - 1] == pending[j]);
                    }
                }
            }
        }
    }
}

/// Where the store names the chains of the token and the oracle answers for
/// each of them, the oracle is asked for exactly those chains, each once and
/// in the order of the store, and the answer holds exactly their balances:
/// one for each chain, none for any other. So the amount that
/// [`total_amount`] makes of the answer is the sum over exactly the chains
/// that the store names, and `zero` where it names none.
pub proof fn lemma_token_amount_covers_named_chains<V>(
    id: Seq<char>,
    token_name: Seq<char>,
    world: TokenWorld<V>,
)
    ensures
        ((world.token_ids)(token_name) matches Ok(token_ids) && forall|j: int|
            0 <= j < token_ids.len() ==> (#[trigger] world.balance(id, token_ids[j])).is_ok()) ==> {
            let token_ids = (world.token_ids)(token_name)->Ok_0;
            let served = token_amount_served(token_amount_start(id, token_name), world);
            &&& served.asked == token_ids
            &&& served.result matches Ok(balances)
            &&& balances.len() == token_ids.len()
            &&& forall|j: int|
                0 <= j < token_ids.len() ==> #[trigger] world.balance(id, token_ids[j]) == Ok::<
                    DebankTokenBalance<V>,
                    DebankApiError,
                >(balances[j])
        },
{
    reveal_with_fuel(token_amount_served, 2);
    if let Ok(token_ids) = (world.token_ids)(token_name) {
        lemma_token_amount_asked(id, token_ids, Seq::empty(), world);
    }
}

/// Where the store or the oracle fails, the question fails: no sum of a part
/// is ever the answer. A failure of the store is the answer before the
/// oracle is asked. Where the oracle fails for a chain, the answer is the
/// first of its failures, in the order of the store, and no chain after
/// that one is asked.
pub proof fn lemma_token_amount_fails_on_any_failure<V>(
    id: Seq<char>,
    token_name: Seq<char>,
    world: TokenWorld<V>,
)
    ensures
        (world.token_ids)(token_name) matches Err(e) ==> {
            let served = token_amount_served(token_amount_start(id, token_name), world);
            &&& served.result == Err::<Seq<DebankTokenBalance<V>>, ApiError>(
                ApiError::StorageError(e),
            )
            &&& served.asked == Seq::<(Seq<char>, Seq<char>)>::empty()
        },
        ((world.token_ids)(token_name) matches Ok(token_ids) && exists|k: int|
            0 <= k < token_ids.len() && (#[trigger] world.balance(id, token_ids[k])).is_err()) ==> {
            let token_ids = (world.token_ids)(token_name)->Ok_0;
            let served = token_amount_served(token_amount_start(id, token_name), world);
            &&& served.result matches Err(ApiError::AssetApiError(e))
            &&& 0 < served.asked.len() <= token_ids.len()
            &&& served.asked == token_ids.take(served.asked.len() as int)
            &&& world.balance(id, token_ids[served.asked.len() - 1]) == Err::<
                DebankTokenBalance<V>,
                DebankApiError,
            >(e)
            &&& forall|j: int|
                0 <= j < served.asked.len() - 1 ==> (#[trigger] world.balance(
                    id,
                    token_ids[j],
                )).is_ok()
        },
{
    reveal_with_fuel(token_amount_served, 2);
    if let Ok(token_ids) = (world.token_ids)(token_name) {
        lemma_token_amount_asked(id, token_ids, Seq::empty(), world);
    }
}

} // verus!
