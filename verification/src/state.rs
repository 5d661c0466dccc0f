//! The registry's persistent state, held as explicit values: the singleton
//! configuration, the symbol-sorted token table, and the finalized-token
//! counter.

use vstd::prelude::*;
use vstd::string::StrSliceExecFns;

use crate::order::{lemma_lex_lt_transitive, lex_lt, str_lt};
use crate::seq_util::{
    count_where, first_where, lemma_count_where_take_all, lemma_count_where_take_succ,
};

verus! {

/// The singleton configuration: the authorization principal, the template to
/// deploy tokens from, and the fee charged per creation.
#[derive(Debug, Clone)]
pub struct Config {
    pub owner: String,
    pub cw20_code_id: u64,
    pub creation_fee: u128,
}

/// One registered token, keyed by its symbol.  An empty `contract_address`
/// means the deployment is still pending; a non-empty one is final.
#[derive(Debug, Clone)]
pub struct TokenInfo {
    pub contract_address: String,
    pub symbol: String,
    pub name: String,
    pub creator: String,
    pub created_at: u64,
}

/// The whole durable state of the module.
#[derive(Debug, Clone)]
pub struct Registry {
    pub config: Config,
    pub tokens: Vec<TokenInfo>,
    pub token_count: u64,
}

pub open spec fn is_pending(t: TokenInfo) -> bool {
    t.contract_address@.len() == 0
}

pub open spec fn is_finalized(t: TokenInfo) -> bool {
    t.contract_address@.len() > 0
}

/// Strictly ascending symbols; strictness also makes them unique.
pub open spec fn sorted_by_symbol(s: Seq<TokenInfo>) -> bool {
    forall|i: int, j: int| 0 <= i < j < s.len() ==> lex_lt(s[i].symbol@, s[j].symbol@)
}

pub open spec fn has_symbol(s: Seq<TokenInfo>, sym: Seq<char>) -> bool {
    exists|i: int| 0 <= i < s.len() && s[i].symbol@ == sym
}

/// The predicate "this record's symbol is `sym`", as a value, so that proofs
/// can hand the same closure to the `first_where` lemmas.
pub open spec fn sym_is(sym: Seq<char>) -> spec_fn(TokenInfo) -> bool {
    |t: TokenInfo| t.symbol@ == sym
}

/// The predicate "this record's symbol is strictly above `sym`".
pub open spec fn above(sym: Seq<char>) -> spec_fn(TokenInfo) -> bool {
    |t: TokenInfo| lex_lt(sym, t.symbol@)
}

pub open spec fn pending_pred() -> spec_fn(TokenInfo) -> bool {
    |t: TokenInfo| is_pending(t)
}

pub open spec fn finalized_pred() -> spec_fn(TokenInfo) -> bool {
    |t: TokenInfo| is_finalized(t)
}

/// Index of the record with symbol `sym`, or `s.len()` if there is none.
pub open spec fn symbol_index(s: Seq<TokenInfo>, sym: Seq<char>) -> int {
    first_where(s, sym_is(sym))
}

/// Index of the first record whose symbol is strictly above `sym`, or
/// `s.len()` if there is none.  In a sorted table this is where a new record
/// with symbol `sym` belongs, and where a listing page after `sym` starts.
pub open spec fn first_above(s: Seq<TokenInfo>, sym: Seq<char>) -> int {
    first_where(s, above(sym))
}

/// Index of the first record still awaiting its deployed address, or
/// `s.len()` if every record is finalized.
pub open spec fn first_pending(s: Seq<TokenInfo>) -> int {
    first_where(s, pending_pred())
}

pub open spec fn count_finalized(s: Seq<TokenInfo>) -> nat {
    count_where(s, finalized_pred())
}

pub open spec fn count_pending(s: Seq<TokenInfo>) -> nat {
    count_where(s, pending_pred())
}

impl Registry {
    /// Well-formedness: the table is sorted by symbol and the counter equals
    /// the number of finalized records.
    pub open spec fn wf(self) -> bool {
        &&& sorted_by_symbol(self.tokens@)
        &&& self.token_count == count_finalized(self.tokens@)
    }

    /// Decides well-formedness, so that the surrounding unverified plumbing
    /// can test a state it reassembled from storage before handing it back
    /// to the entry points.
    pub fn check(&self) -> (b: bool)
        ensures
            b == self.wf(),
    {
        let n = self.tokens.len();
        let mut i: usize = 0;
        while n > 0 && i < n - 1
            invariant
                n == self.tokens@.len(),
                i <= n,
                forall|j: int|
                    0 <= j < i ==> lex_lt(
                        #[trigger] self.tokens@[j].symbol@,
                        self.tokens@[j + 1].symbol@,
                    ),
            decreases n - i,
        {
            if !str_lt(self.tokens[i].symbol.as_str(), self.tokens[i + 1].symbol.as_str()) {
                proof {
                    if sorted_by_symbol(self.tokens@) {
                        assert(lex_lt(
                            self.tokens@[i as int].symbol@,
                            self.tokens@[i as int + 1].symbol@,
                        ));
                    }
                }
                return false;
            }
            i += 1;
        }
        proof {
            lemma_sorted_from_adjacent(self.tokens@);
        }
        let mut cnt: u64 = 0;
        let mut k: usize = 0;
        while k < n
            invariant
                n == self.tokens@.len(),
                k <= n,
                cnt <= k,
                cnt == count_finalized(self.tokens@.take(k as int)),
            decreases n - k,
        {
            proof {
                lemma_count_where_take_succ(self.tokens@, finalized_pred(), k as int);
            }
            if !self.tokens[k].contract_address.as_str().is_empty() {
                cnt = cnt + 1;
            }
            k += 1;
        }
        proof {
            lemma_count_where_take_all(self.tokens@, finalized_pred());
        }
        cnt == self.token_count
    }
}

proof fn lemma_symbol_chain(s: Seq<TokenInfo>, i: int, j: int)
    requires
        forall|m: int| 0 <= m < s.len() - 1 ==> lex_lt(#[trigger] s[m].symbol@, s[m + 1].symbol@),
        0 <= i < j < s.len(),
    ensures
        lex_lt(s[i].symbol@, s[j].symbol@),
    decreases j - i,
{
    if j == i + 1 {
        assert(lex_lt(s[i].symbol@, s[i + 1].symbol@));
    } else {
        lemma_symbol_chain(s, i, j - 1);
        assert(lex_lt(s[j - 1].symbol@, s[j].symbol@));
        lemma_lex_lt_transitive(s[i].symbol@, s[j - 1].symbol@, s[j].symbol@);
    }
}

/// A table whose every adjacent pair is in order is sorted outright.
pub proof fn lemma_sorted_from_adjacent(s: Seq<TokenInfo>)
    requires
        forall|m: int| 0 <= m < s.len() - 1 ==> lex_lt(#[trigger] s[m].symbol@, s[m + 1].symbol@),
    ensures
        sorted_by_symbol(s),
{
    assert forall|i: int, j: int| 0 <= i < j < s.len() implies lex_lt(
        s[i].symbol@,
        s[j].symbol@,
    ) by {
        lemma_symbol_chain(s, i, j);
    }
}

} // verus!
