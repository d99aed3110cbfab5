//! The named tokens: for a name, the identifier of the token on each chain
//! that has it.

use vstd::prelude::*;
use crate::text::{contains_text, same_text, text_pairs, texts};

verus! {

/// The row of a named token: its columns by name, each with its text, or
/// `None` where the column is empty or holds no text.
#[derive(Debug)]
pub struct TokenRow {
    pub columns: Vec<(String, Option<String>)>,
}

/// The text of the column `name`; of two columns of one name the later
/// counts. `None` where no column has the name, or the column no text.
pub open spec fn column_text(columns: Seq<(String, Option<String>)>, name: Seq<char>) -> Option<
    Seq<char>,
>
    decreases columns.len(),
{
    if columns.len() == 0 {
        None
    } else if columns.last().0@ == name {
        match columns.last().1 {
            Some(text) => Some(text@),
            None => None,
        }
    } else {
        column_text(columns.drop_last(), name)
    }
}

/// The chains of a list of pairs of chain and token.
pub open spec fn chains_of(token_ids: Seq<(Seq<char>, Seq<char>)>) -> Seq<Seq<char>> {
    token_ids.map_values(|p: (Seq<char>, Seq<char>)| p.0)
}

/// The pairs of chain and token identifier that the row gives for
/// `chain_ids`: each chain once, where it first occurs, if the row has a
/// text in the column of its name.
pub open spec fn token_ids_in(
    columns: Seq<(String, Option<String>)>,
    chain_ids: Seq<Seq<char>>,
) -> Seq<(Seq<char>, Seq<char>)>
    decreases chain_ids.len(),
{
    if chain_ids.len() == 0 {
        Seq::empty()
    } else {
        let before = token_ids_in(columns, chain_ids.drop_last());
        let chain = chain_ids.last();
        match column_text(columns, chain) {
            Some(token) if !chains_of(before).contains(chain) => before.push((chain, token)),
            _ => before,
        }
    }
}

impl TokenRow {
    /// The text of the column `name`.
    pub fn text(&self, name: &str) -> (text: Option<&String>)
        ensures
            match text {
                Some(t) => column_text(self.columns@, name@) == Some(t@),
                None => column_text(self.columns@, name@).is_none(),
            },
    {
        let mut i: usize = self.columns.len();
        proof {
            assert(self.columns@.take(i as int) == self.columns@);
        }
        while i > 0
            invariant
                i <= self.columns.len(),
                column_text(self.columns@, name@) == column_text(
                    self.columns@.take(i as int),
                    name@,
                ),
            decreases i,
        {
            i -= 1;
            proof {
                let upto = self.columns@.take(i + 1);
                assert(upto.drop_last() == self.columns@.take(i as int));
            }
            if same_text(self.columns[i].0.as_str(), name) {
                return self.columns[i].1.as_ref();
            }
        }
        None
    }
}

/// Whether `chain` is the chain of one of the pairs.
fn has_chain(token_ids: &Vec<(String, String)>, chain: &str) -> (r: bool)
    ensures
        r == chains_of(text_pairs(token_ids@)).contains(chain@),
{
    let ghost chains = chains_of(text_pairs(token_ids@));
    let mut i: usize = 0;
    while i < token_ids.len()
        invariant
            i <= token_ids.len(),
            chains == chains_of(text_pairs(token_ids@)),
            forall|j: int| 0 <= j < i ==> chains[j] != chain@,
        decreases token_ids.len() - i,
    {
        if same_text(token_ids[i].0.as_str(), chain) {
            assert(chains[i as int] == chain@);
            return true;
        }
        i += 1;
    }
    false
}

/// What [`token_ids_in`] holds: no chain twice; and a pair of chain and
/// token exactly where the chain is one of `chain_ids` and the row has that
/// token in the column of its name.
pub proof fn lemma_token_ids_in(columns: Seq<(String, Option<String>)>, chain_ids: Seq<Seq<char>>)
    ensures
        chains_of(token_ids_in(columns, chain_ids)).no_duplicates(),
        forall|chain: Seq<char>, token: Seq<char>|
            #[trigger] token_ids_in(columns, chain_ids).contains((chain, token)) <==> (
            chain_ids.contains(chain) && column_text(columns, chain) == Some(token)),
    decreases chain_ids.len(),
{
    let all = token_ids_in(columns, chain_ids);
    if chain_ids.len() > 0 {
        let before = token_ids_in(columns, chain_ids.drop_last());
        lemma_token_ids_in(columns, chain_ids.drop_last());
        assert forall|chain: Seq<char>, token: Seq<char>| #[trigger]
            all.contains((chain, token)) <==> (chain_ids.contains(chain) && column_text(
                columns,
                chain,
            ) == Some(token)) by {
            if all.contains((chain, token)) {
                let i = choose|i: int| 0 <= i < all.len() && all[i] == (chain, token);
                if i < before.len() {
                    assert(before.contains((chain, token)));
                }
            }
            if chain_ids.contains(chain) && column_text(columns, chain) == Some(token) {
                let j = choose|j: int| 0 <= j < chain_ids.len() && chain_ids[j] == chain;
                if j < chain_ids.len() - 1 {
                    assert(chain_ids.drop_last()[j] == chain);
                    assert(before.contains((chain, token)));
                    let i = choose|i: int| 0 <= i < before.len() && before[i] == (chain, token);
                    assert(all[i] == (chain, token));
                } else if chains_of(before).contains(chain) {
                    let i = choose|i: int|
                        0 <= i < chains_of(before).len() && chains_of(before)[i] == chain;
                    assert(before.contains(before[i]));
                    assert(all[i] == (chain, token));
                } else {
                    assert(all[all.len() - 1] == (chain, token));
                }
            }
        }
        assert forall|i: int, j: int|
            0 <= i < chains_of(all).len() && 0 <= j < chains_of(all).len() && i != j implies chains_of(
            all,
        )[i] != chains_of(all)[j] by {
            if i < before.len() && j < before.len() {
                assert(chains_of(before)[i] != chains_of(before)[j]);
            } else if i < before.len() {
                assert(chains_of(before)[i] == chains_of(all)[i]);
            } else {
                assert(chains_of(before)[j] == chains_of(all)[j]);
            }
        }
    }
}

/// get token ids on different chain by its name, only vote token have this method.
///
/// From the row of the named token and the supported chains: the chains
/// that have the token, each once, in the order of `chain_ids`, with the
/// identifier of the token there.
pub fn load_token_ids_by_name(row: &TokenRow, chain_ids: &Vec<String>) -> (token_ids: Vec<
    (String, String),
>)
    ensures
        text_pairs(token_ids@) == token_ids_in(row.columns@, texts(chain_ids@)),
        chains_of(text_pairs(token_ids@)).no_duplicates(),
        forall|chain: Seq<char>, token: Seq<char>|
            #[trigger] text_pairs(token_ids@).contains((chain, token)) <==> (texts(
                chain_ids@,
            ).contains(chain) && column_text(row.columns@, chain) == Some(token)),
{
    let mut token_ids: Vec<(String, String)> = Vec::new();
    let mut i: usize = 0;
    while i < chain_ids.len()
        invariant
            i <= chain_ids.len(),
            text_pairs(token_ids@) == token_ids_in(row.columns@, texts(chain_ids@).take(i as int)),
        decreases chain_ids.len() - i,
    {
        let chain_id = &chain_ids[i];
        proof {
            let upto = texts(chain_ids@).take(i + 1);
            assert(upto.drop_last() == texts(chain_ids@).take(i as int));
        }
        if !has_chain(&token_ids, chain_id.as_str()) {
            if let Some(token) = row.text(chain_id.as_str()) {
                token_ids.push((chain_id.clone(), token.clone()));
            }
        }
        i += 1;
    }
    proof {
        assert(texts(chain_ids@).take(i as int) == texts(chain_ids@));
        lemma_token_ids_in(row.columns@, texts(chain_ids@));
    }
    token_ids
}

} // verus!
