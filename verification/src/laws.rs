//! The registry's laws: properties that hold across entry points, stated over
//! the same specification predicates the entry points' contracts use, and
//! proved once and for all.

use vstd::prelude::*;

use crate::contract::{
    create_token_accepted, list_start, spec_limit, token_info_matches, token_list_matches,
    token_response_matches,
};
use crate::msg::{Response, TokenInfoResponse, TokenListResponse};
use crate::order::{lemma_lex_lt_asymmetric, lemma_lex_lt_irreflexive, lemma_lex_lt_transitive,
    lex_lt};
use crate::seq_util::{lemma_count_where_insert, lemma_first_where_bounds, lemma_first_where_is};
use crate::error::ContractError;
use crate::state::{
    above, count_finalized, count_pending, first_above, pending_pred, sorted_by_symbol, Registry,
    TokenInfo,
};

verus! {

/// Accepting a create-token request on a registry with no pending record
/// leaves exactly one pending record, and emits exactly one deployment
/// request.  (A pending record can only exist while its deployment is
/// outstanding, so every create-token call starts from a fully finalized
/// table.)
pub proof fn lemma_create_token_single_pending(
    pre: Registry,
    post: Registry,
    resp: Response,
    caller: Seq<char>,
    name: Seq<char>,
    symbol: Seq<char>,
    total_supply: u128,
    now: u64,
)
    requires
        count_pending(pre.tokens@) == 0,
        create_token_accepted(pre, post, resp, caller, name, symbol, total_supply, now),
    ensures
        count_pending(post.tokens@) == 1,
        resp.deployment is Some,
{
    let i = first_above(pre.tokens@, symbol);
    lemma_first_where_bounds(pre.tokens@, above(symbol));
    assert(post.tokens@ =~= pre.tokens@.insert(i, post.tokens@[i]));
    lemma_count_where_insert(pre.tokens@, pending_pred(), i, post.tokens@[i]);
}

/// The finalized-registration counter a stats query reports always equals
/// the number of records carrying a deployed address.
pub proof fn lemma_stats_counts_finalized(reg: Registry)
    requires
        reg.wf(),
    ensures
        reg.token_count == count_finalized(reg.tokens@),
{
}

/// A listing page never exceeds the honoured limit, every record in it lies
/// strictly above `start_after`, and the page is in strictly ascending
/// symbol order.
pub proof fn lemma_token_list_page(
    reg: Registry,
    start_after: Option<String>,
    limit: Option<u32>,
    r: TokenListResponse,
)
    requires
        reg.wf(),
        token_list_matches(reg, start_after, limit, r),
    ensures
        r.tokens@.len() <= spec_limit(limit),
        forall|k: int|
            0 <= k < r.tokens@.len() ==> (start_after matches Some(sa) ==> lex_lt(
                sa@,
                #[trigger] r.tokens@[k].symbol@,
            )),
        forall|k1: int, k2: int|
            0 <= k1 < k2 < r.tokens@.len() ==> lex_lt(
                r.tokens@[k1].symbol@,
                r.tokens@[k2].symbol@,
            ),
{
    let s = reg.tokens@;
    let st = list_start(s, start_after);
    match start_after {
        Some(sa) => {
            lemma_first_where_bounds(s, above(sa@));
            assert forall|k: int| 0 <= k < r.tokens@.len() implies lex_lt(
                sa@,
                #[trigger] r.tokens@[k].symbol@,
            ) by {
                assert(token_response_matches(r.tokens@[k], s[st + k]));
                assert(lex_lt(sa@, s[st].symbol@));
                if k > 0 {
                    assert(lex_lt(s[st].symbol@, s[st + k].symbol@));
                    lemma_lex_lt_transitive(sa@, s[st].symbol@, s[st + k].symbol@);
                }
            }
        },
        None => {},
    }
    assert forall|k1: int, k2: int| 0 <= k1 < k2 < r.tokens@.len() implies lex_lt(
        r.tokens@[k1].symbol@,
        r.tokens@[k2].symbol@,
    ) by {
        assert(token_response_matches(r.tokens@[k1], s[st + k1]));
        assert(token_response_matches(r.tokens@[k2], s[st + k2]));
        assert(lex_lt(s[st + k1].symbol@, s[st + k2].symbol@));
    }
}

/// In a sorted table, the page starting strictly above the symbol at index
/// `i` starts exactly at `i + 1`.
pub proof fn lemma_first_above_succ(s: Seq<TokenInfo>, i: int)
    requires
        sorted_by_symbol(s),
        0 <= i < s.len(),
    ensures
        first_above(s, s[i].symbol@) == i + 1,
{
    let sym = s[i].symbol@;
    assert forall|j: int| 0 <= j < i + 1 implies !(above(sym)(s[j])) by {
        if j < i {
            assert(lex_lt(s[j].symbol@, sym));
            lemma_lex_lt_asymmetric(s[j].symbol@, sym);
        } else {
            lemma_lex_lt_irreflexive(sym);
        }
    }
    if i + 1 < s.len() {
        assert(lex_lt(sym, s[i + 1].symbol@));
    }
    lemma_first_where_is(s, above(sym), i + 1);
}

/// Paging is seamless: a page that starts after the last symbol of a
/// previous page continues with exactly the records that follow the ones
/// that page returned.
pub proof fn lemma_token_list_continuation(
    reg: Registry,
    start1: Option<String>,
    limit1: Option<u32>,
    r1: TokenListResponse,
    edge: String,
    limit2: Option<u32>,
    r2: TokenListResponse,
)
    requires
        reg.wf(),
        token_list_matches(reg, start1, limit1, r1),
        r1.tokens@.len() > 0,
        edge@ == r1.tokens@.last().symbol@,
        token_list_matches(reg, Some(edge), limit2, r2),
    ensures
        list_start(reg.tokens@, Some(edge)) == list_start(reg.tokens@, start1)
            + r1.tokens@.len(),
        forall|k: int|
            0 <= k < r2.tokens@.len() ==> token_response_matches(
                #[trigger] r2.tokens@[k],
                reg.tokens@[list_start(reg.tokens@, start1) + r1.tokens@.len() + k],
            ),
{
    let s = reg.tokens@;
    let st1 = list_start(s, start1);
    let n1 = r1.tokens@.len() as int;
    match start1 {
        Some(sa) => lemma_first_where_bounds(s, above(sa@)),
        None => {},
    }
    assert(0 <= st1 && st1 + n1 <= s.len());
    assert(token_response_matches(r1.tokens@[n1 - 1], s[st1 + n1 - 1]));
    assert(edge@ == s[st1 + n1 - 1].symbol@);
    lemma_first_above_succ(s, st1 + n1 - 1);
}

/// Queries are functions of the state alone: two lookups of the same symbol
/// against the same registry agree, field for field.
pub proof fn lemma_token_info_deterministic(
    reg: Registry,
    symbol: Seq<char>,
    r1: Result<TokenInfoResponse, ContractError>,
    r2: Result<TokenInfoResponse, ContractError>,
)
    requires
        token_info_matches(reg, symbol, r1),
        token_info_matches(reg, symbol, r2),
    ensures
        r1 is Ok <==> r2 is Ok,
        r1 matches Ok(a) ==> (r2 matches Ok(b) ==> token_responses_agree(a, b)),
        r1 is Err ==> r1 == r2,
{
}

/// Two listing responses that answer the same request against the same
/// registry agree, entry for entry.
pub proof fn lemma_token_list_deterministic(
    reg: Registry,
    start_after: Option<String>,
    limit: Option<u32>,
    r1: TokenListResponse,
    r2: TokenListResponse,
)
    requires
        token_list_matches(reg, start_after, limit, r1),
        token_list_matches(reg, start_after, limit, r2),
    ensures
        r1.tokens@.len() == r2.tokens@.len(),
        forall|k: int|
            0 <= k < r1.tokens@.len() ==> token_responses_agree(
                #[trigger] r1.tokens@[k],
                r2.tokens@[k],
            ),
{
    let s = reg.tokens@;
    let st = list_start(s, start_after);
    assert forall|k: int| 0 <= k < r1.tokens@.len() implies token_responses_agree(
        #[trigger] r1.tokens@[k],
        r2.tokens@[k],
    ) by {
        assert(token_response_matches(r1.tokens@[k], s[st + k]));
        assert(token_response_matches(r2.tokens@[k], s[st + k]));
    }
}

/// Two token projections agree when every observable field does.
pub open spec fn token_responses_agree(a: TokenInfoResponse, b: TokenInfoResponse) -> bool {
    &&& a.contract_address@ == b.contract_address@
    &&& a.symbol@ == b.symbol@
    &&& a.name@ == b.name@
    &&& a.creator@ == b.creator@
    &&& a.created_at == b.created_at
}

} // verus!
