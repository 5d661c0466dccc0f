//! The entry points of the registry: initialization, the create-token state
//! machine, the deployment continuation, the configuration update, and the
//! read-only queries.

use vstd::prelude::*;
use vstd::string::{StrSliceExecFns, StringExecFns};

use crate::error::ContractError;
use crate::msg::{
    Coin, ConfigResponse, Event, EventAttribute, ExecuteMsg, FeeTransfer, InstantiateMsg,
    QueryAnswer, QueryMsg, Response, StatsResponse, SubCallOutcome, TokenDeployment,
    TokenInfoResponse, TokenListResponse,
};
use crate::order::{
    all_whitespace, is_blank, lemma_lex_lt_connected, lemma_lex_lt_transitive, lex_lt, str_lt,
};
use crate::seq_util::{
    first_where, lemma_count_where_insert, lemma_count_where_le_len, lemma_count_where_update,
    lemma_first_where_bounds, lemma_first_where_is,
};
use crate::state::{
    above, count_finalized, finalized_pred, first_above, first_pending, has_symbol, is_pending,
    pending_pred, sorted_by_symbol, sym_is, symbol_index, Config, Registry, TokenInfo,
};

verus! {

/// The correlation tag carried by every delegated deployment request.
pub const INSTANTIATE_TOKEN_REPLY_ID: u64 = 1;

/// Number of decimal places every deployed token uses.
pub const TOKEN_DECIMALS: u8 = 6;

/// Page size of a token listing when the caller names none.
pub const DEFAULT_LIMIT: u32 = 30;

/// Largest page size a token listing ever returns.
pub const MAX_LIMIT: u32 = 100;

/// The only denomination the creation fee may be paid in.
pub open spec fn fee_denom() -> Seq<char> {
    "usei"@
}

/// Sets up the module: the caller becomes the owner, the configuration is
/// persisted, and the finalized-token counter starts at zero.
pub fn instantiate(caller: String, msg: InstantiateMsg) -> (r: Registry)
    ensures
        r.wf(),
        r.config.owner@ == caller@,
        r.config.cw20_code_id == msg.cw20_code_id,
        r.config.creation_fee == msg.creation_fee,
        r.tokens@.len() == 0,
        r.token_count == 0,
{
    let r = Registry {
        config: Config {
            owner: caller,
            cw20_code_id: msg.cw20_code_id,
            creation_fee: msg.creation_fee,
        },
        tokens: Vec::new(),
        token_count: 0,
    };
    proof {
        assert(count_finalized(r.tokens@) == 0);
    }
    r
}

/// The error a create-token request is rejected with, or `None` when it must
/// be accepted.  The checks happen in this order, each a distinct failure.
pub open spec fn create_token_error(
    cfg: Config,
    toks: Seq<TokenInfo>,
    caller: Seq<char>,
    caller_valid: bool,
    funds: Seq<Coin>,
    name: Seq<char>,
    symbol: Seq<char>,
    total_supply: u128,
) -> Option<ContractError> {
    if caller.len() == 0 || !caller_valid {
        Some(ContractError::InvalidCaller)
    } else if funds.len() != 1 {
        Some(ContractError::InvalidPayment { expected: cfg.creation_fee, received: 0 })
    } else if funds[0].denom@ != fee_denom() {
        Some(ContractError::WrongDenom)
    } else if funds[0].amount != cfg.creation_fee {
        Some(
            ContractError::InvalidPayment {
                expected: cfg.creation_fee,
                received: funds[0].amount,
            },
        )
    } else if has_symbol(toks, symbol) {
        Some(ContractError::SymbolExists)
    } else if all_whitespace(name) || all_whitespace(symbol) || total_supply == 0 {
        Some(ContractError::InvalidTokenParams)
    } else if cfg.owner@.len() == 0 {
        Some(ContractError::Internal)
    } else {
        None
    }
}

/// What accepting a create-token request does: one new pending record at its
/// sorted position, every other record untouched, the full fee forwarded to
/// the owner, and one deployment request for the configured template.
pub open spec fn create_token_accepted(
    pre: Registry,
    post: Registry,
    resp: Response,
    caller: Seq<char>,
    name: Seq<char>,
    symbol: Seq<char>,
    total_supply: u128,
    now: u64,
) -> bool {
    let i = first_above(pre.tokens@, symbol);
    &&& post.config == pre.config
    &&& post.token_count == pre.token_count
    &&& post.tokens@.len() == pre.tokens@.len() + 1
    &&& is_pending(post.tokens@[i])
    &&& post.tokens@[i].symbol@ == symbol
    &&& post.tokens@[i].name@ == name
    &&& post.tokens@[i].creator@ == caller
    &&& post.tokens@[i].created_at == now
    &&& forall|j: int| 0 <= j < i ==> post.tokens@[j] == pre.tokens@[j]
    &&& forall|j: int| i < j < post.tokens@.len() ==> post.tokens@[j] == pre.tokens@[j - 1]
    &&& (resp.fee_transfer matches Some(ft) && ft.to_address@ == pre.config.owner@
        && ft.denom@ == fee_denom() && ft.amount == pre.config.creation_fee)
    &&& (resp.deployment matches Some(d) && d.code_id == pre.config.cw20_code_id
        && d.name@ == name && d.symbol@ == symbol && d.decimals == TOKEN_DECIMALS
        && d.initial_holder@ == caller && d.initial_amount == total_supply && d.minter@ == caller
        && d.admin@ == caller && d.label@ == "meme-token-"@ + symbol
        && d.reply_id == INSTANTIATE_TOKEN_REPLY_ID)
}

/// Whether some record of `tokens` carries `symbol`.
fn symbol_taken(tokens: &Vec<TokenInfo>, symbol: &String) -> (r: bool)
    ensures
        r == has_symbol(tokens@, symbol@),
{
    let n = tokens.len();
    let mut i: usize = 0;
    while i < n
        invariant
            i <= n,
            n == tokens@.len(),
            forall|j: int| 0 <= j < i ==> tokens@[j].symbol@ != symbol@,
        decreases n - i,
    {
        if tokens[i].symbol == *symbol {
            assert(has_symbol(tokens@, symbol@));
            return true;
        }
        i += 1;
    }
    false
}

/// Where a record with `symbol` belongs in the sorted table: the index of the
/// first record whose symbol is strictly above it.
fn insert_position(tokens: &Vec<TokenInfo>, symbol: &String) -> (r: usize)
    ensures
        r == first_above(tokens@, symbol@),
{
    let n = tokens.len();
    let mut i: usize = 0;
    while i < n
        invariant
            i <= n,
            n == tokens@.len(),
            forall|j: int| 0 <= j < i ==> !lex_lt(symbol@, tokens@[j].symbol@),
        decreases n - i,
    {
        if str_lt(symbol.as_str(), tokens[i].symbol.as_str()) {
            proof {
                lemma_first_where_is(tokens@, above(symbol@), i as int);
            }
            return i;
        }
        i += 1;
    }
    proof {
        lemma_first_where_is(tokens@, above(symbol@), n as int);
    }
    n
}

/// Validates a create-token request and, when it is acceptable, registers a
/// pending record and emits the fee transfer and the delegated deployment.
///
/// `caller_valid` is the host's verdict on whether `caller` is a
/// syntactically valid account identifier; `now` is the current block time in
/// seconds.  `image_url` and `description` are accepted but pass through
/// unvalidated and unrecorded.
#[allow(unused_variables)]
pub fn execute_create_token(
    reg: &mut Registry,
    caller: String,
    caller_valid: bool,
    funds: Vec<Coin>,
    name: String,
    symbol: String,
    total_supply: u128,
    image_url: String,
    description: String,
    now: u64,
) -> (r: Result<Response, ContractError>)
    requires
        old(reg).wf(),
    ensures
        final(reg).wf(),
        ({
            let err = create_token_error(
                old(reg).config,
                old(reg).tokens@,
                caller@,
                caller_valid,
                funds@,
                name@,
                symbol@,
                total_supply,
            );
            &&& (err matches Some(e) ==> r == Err::<Response, ContractError>(e) && *final(reg) == *old(
                reg,
            ))
            &&& (err is None ==> (r matches Ok(resp) && create_token_accepted(
                *old(reg),
                *final(reg),
                resp,
                caller@,
                name@,
                symbol@,
                total_supply,
                now,
            )))
        }),
{
    let fee = reg.config.creation_fee;
    if caller.as_str().is_empty() || !caller_valid {
        return Err(ContractError::InvalidCaller);
    }
    if funds.len() != 1 {
        return Err(ContractError::InvalidPayment { expected: fee, received: 0 });
    }
    let pay_denom_ok = funds[0].denom == String::from_str("usei");
    if !pay_denom_ok {
        return Err(ContractError::WrongDenom);
    }
    let amount = funds[0].amount;
    if amount != fee {
        return Err(ContractError::InvalidPayment { expected: fee, received: amount });
    }
    if symbol_taken(&reg.tokens, &symbol) {
        return Err(ContractError::SymbolExists);
    }
    if is_blank(name.as_str()) || is_blank(symbol.as_str()) || total_supply == 0 {
        return Err(ContractError::InvalidTokenParams);
    }
    if reg.config.owner.as_str().is_empty() {
        return Err(ContractError::Internal);
    }
    let pos = insert_position(&reg.tokens, &symbol);
    let record = TokenInfo {
        contract_address: String::new(),
        symbol: symbol.clone(),
        name: name.clone(),
        creator: caller.clone(),
        created_at: now,
    };
    proof {
        lemma_first_where_bounds(reg.tokens@, above(symbol@));
    }
    reg.tokens.insert(pos, record);
    proof {
        let s = old(reg).tokens@;
        let sym = symbol@;
        let p = first_above(s, sym);
        let s2 = reg.tokens@;
        assert forall|i: int| 0 <= i < p implies lex_lt(s[i].symbol@, sym) by {
            if !lex_lt(s[i].symbol@, sym) {
                lemma_lex_lt_connected(s[i].symbol@, sym);
                assert(has_symbol(s, sym));
            }
        }
        assert forall|i: int, j: int| 0 <= i < j < s2.len() implies lex_lt(
            s2[i].symbol@,
            s2[j].symbol@,
        ) by {
            if j < p {
                assert(s2[i] == s[i] && s2[j] == s[j]);
            } else if j == p {
                assert(s2[j].symbol@ == sym);
                assert(s2[i] == s[i]);
            } else {
                assert(s2[j] == s[j - 1] && p <= j - 1 < s.len());
                if i < p {
                    if i < j - 1 {
                        assert(lex_lt(s[i].symbol@, s[j - 1].symbol@));
                    } else {
                        assert(lex_lt(s[i].symbol@, sym));
                        assert(lex_lt(sym, s[j - 1].symbol@));
                        lemma_lex_lt_transitive(s[i].symbol@, sym, s[j - 1].symbol@);
                    }
                } else if i == p {
                    assert(lex_lt(sym, s[p].symbol@));
                    if p < j - 1 {
                        assert(lex_lt(s[p].symbol@, s[j - 1].symbol@));
                        lemma_lex_lt_transitive(sym, s[p].symbol@, s[j - 1].symbol@);
                    }
                    assert(lex_lt(sym, s[j - 1].symbol@));
                } else {
                    assert(s2[i] == s[i - 1]);
                    assert(lex_lt(s[i - 1].symbol@, s[j - 1].symbol@));
                }
            }
        }
        assert(sorted_by_symbol(s2));
        lemma_count_where_insert(s, finalized_pred(), p, s2[p]);
        assert(count_finalized(s2) == count_finalized(s));
    }
    let label = String::from_str("meme-token-").concat(symbol.as_str());
    let fee_transfer = FeeTransfer {
        to_address: reg.config.owner.clone(),
        denom: String::from_str("usei"),
        amount,
    };
    let deployment = TokenDeployment {
        code_id: reg.config.cw20_code_id,
        name,
        symbol,
        decimals: TOKEN_DECIMALS,
        initial_holder: caller.clone(),
        initial_amount: total_supply,
        minter: caller.clone(),
        admin: caller,
        label,
        reply_id: INSTANTIATE_TOKEN_REPLY_ID,
    };
    Ok(Response { fee_transfer: Some(fee_transfer), deployment: Some(deployment) })
}

/// The error a configuration update is rejected with, or `None` when it must
/// be accepted.
pub open spec fn update_config_error(
    cfg: Config,
    caller: Seq<char>,
    owner: Option<String>,
    owner_valid: bool,
) -> Option<ContractError> {
    if caller != cfg.owner@ {
        Some(ContractError::Unauthorized)
    } else if owner is Some && !owner_valid {
        Some(ContractError::InvalidCaller)
    } else {
        None
    }
}

/// What accepting a configuration update does: fields named in the request
/// overwrite the configuration, absent fields stay, and the token table and
/// counter are untouched.
pub open spec fn config_updated(
    pre: Registry,
    post: Registry,
    owner: Option<String>,
    cw20_code_id: Option<u64>,
    creation_fee: Option<u128>,
) -> bool {
    &&& post.config.owner@ == (match owner {
        Some(o) => o@,
        None => pre.config.owner@,
    })
    &&& post.config.cw20_code_id == (match cw20_code_id {
        Some(c) => c,
        None => pre.config.cw20_code_id,
    })
    &&& post.config.creation_fee == (match creation_fee {
        Some(f) => f,
        None => pre.config.creation_fee,
    })
    &&& post.tokens == pre.tokens
    &&& post.token_count == pre.token_count
}

/// Overwrites the configuration fields named in the request.  Only the
/// configured owner may call this; `owner_valid` is the host's verdict on the
/// new owner identifier, looked at only when one is given.
pub fn execute_update_config(
    reg: &mut Registry,
    caller: String,
    owner: Option<String>,
    owner_valid: bool,
    cw20_code_id: Option<u64>,
    creation_fee: Option<u128>,
) -> (r: Result<(), ContractError>)
    requires
        old(reg).wf(),
    ensures
        final(reg).wf(),
        ({
            let err = update_config_error(old(reg).config, caller@, owner, owner_valid);
            &&& (err matches Some(e) ==> r == Err::<(), ContractError>(e) && *final(reg) == *old(
                reg,
            ))
            &&& (err is None ==> r == Ok::<(), ContractError>(()) && config_updated(
                *old(reg),
                *final(reg),
                owner,
                cw20_code_id,
                creation_fee,
            ))
        }),
{
    if !(caller == reg.config.owner) {
        return Err(ContractError::Unauthorized);
    }
    match owner {
        Some(o) => {
            if !owner_valid {
                return Err(ContractError::InvalidCaller);
            }
            reg.config.owner = o;
        },
        None => {},
    }
    if let Some(c) = cw20_code_id {
        reg.config.cw20_code_id = c;
    }
    if let Some(f) = creation_fee {
        reg.config.creation_fee = f;
    }
    Ok(())
}

/// The predicate "this event is the host's module-instantiation event".
pub open spec fn inst_event_pred() -> spec_fn(Event) -> bool {
    |e: Event| e.ty@ == "instantiate"@
}

/// The predicate "this attribute carries the deployed module's address".
pub open spec fn addr_attr_pred() -> spec_fn(EventAttribute) -> bool {
    |a: EventAttribute| a.key@ == "_contract_address"@
}

/// The deployed address a continuation's events report: the value of the
/// address attribute of the first instantiation event, if both exist.
pub open spec fn instantiate_address(events: Seq<Event>) -> Option<Seq<char>> {
    let ei = first_where(events, inst_event_pred());
    if ei == events.len() {
        None
    } else {
        let attrs = events[ei].attributes@;
        let ai = first_where(attrs, addr_attr_pred());
        if ai == attrs.len() {
            None
        } else {
            Some(attrs[ai].value@)
        }
    }
}

/// Scans the events for the deployed module's address.
fn find_instantiate_address(events: &Vec<Event>) -> (r: Option<String>)
    ensures
        ({
            let a = instantiate_address(events@);
            match r {
                Some(s) => a matches Some(v) && v == s@,
                None => a is None,
            }
        }),
{
    let n = events.len();
    let mut i: usize = 0;
    while i < n
        invariant
            i <= n,
            n == events@.len(),
            forall|j: int| 0 <= j < i ==> events@[j].ty@ != "instantiate"@,
        decreases n - i,
    {
        if events[i].ty == String::from_str("instantiate") {
            proof {
                lemma_first_where_is(events@, inst_event_pred(), i as int);
            }
            let attrs = &events[i].attributes;
            let m = attrs.len();
            let mut k: usize = 0;
            while k < m
                invariant
                    k <= m,
                    m == attrs@.len(),
                    i < events@.len(),
                    attrs@ == events@[i as int].attributes@,
                    first_where(events@, inst_event_pred()) == i as int,
                    forall|j: int| 0 <= j < k ==> attrs@[j].key@ != "_contract_address"@,
                decreases m - k,
            {
                if attrs[k].key == String::from_str("_contract_address") {
                    proof {
                        lemma_first_where_is(attrs@, addr_attr_pred(), k as int);
                    }
                    return Some(attrs[k].value.clone());
                }
                k += 1;
            }
            proof {
                lemma_first_where_is(attrs@, addr_attr_pred(), m as int);
            }
            return None;
        }
        i += 1;
    }
    proof {
        lemma_first_where_is(events@, inst_event_pred(), n as int);
    }
    None
}

/// Index of the first record still awaiting its address.
fn find_pending(tokens: &Vec<TokenInfo>) -> (r: usize)
    ensures
        r == first_pending(tokens@),
{
    let n = tokens.len();
    let mut i: usize = 0;
    while i < n
        invariant
            i <= n,
            n == tokens@.len(),
            forall|j: int| 0 <= j < i ==> !is_pending(tokens@[j]),
        decreases n - i,
    {
        if tokens[i].contract_address.as_str().is_empty() {
            proof {
                lemma_first_where_is(tokens@, pending_pred(), i as int);
            }
            return i;
        }
        i += 1;
    }
    proof {
        lemma_first_where_is(tokens@, pending_pred(), n as int);
    }
    n
}

/// What a successful continuation does: the first pending record, at index
/// `p`, takes the deployed address `a`; everything else is untouched and the
/// finalized counter moves up by one.
pub open spec fn finalized_at(pre: Registry, post: Registry, a: Seq<char>, p: int) -> bool {
    &&& post.config == pre.config
    &&& post.tokens@.len() == pre.tokens@.len()
    &&& post.tokens@[p].contract_address@ == a
    &&& post.tokens@[p].symbol == pre.tokens@[p].symbol
    &&& post.tokens@[p].name == pre.tokens@[p].name
    &&& post.tokens@[p].creator == pre.tokens@[p].creator
    &&& post.tokens@[p].created_at == pre.tokens@[p].created_at
    &&& forall|j: int| 0 <= j < pre.tokens@.len() && j != p ==> post.tokens@[j] == pre.tokens@[j]
    &&& post.token_count == pre.token_count + 1
}

/// Consumes the result of a delegated deployment.  On success the deployed
/// address, read from the instantiation event, finalizes the first record
/// still pending — the registry's deliberate single-slot correlation rule,
/// sound only while at most one request is outstanding.  A missing or empty
/// address, or no pending record, is an internal fault; a failed deployment
/// aborts so the host rolls the whole call back.
pub fn reply(reg: &mut Registry, id: u64, outcome: SubCallOutcome) -> (r: Result<
    String,
    ContractError,
>)
    requires
        old(reg).wf(),
    ensures
        final(reg).wf(),
        id != INSTANTIATE_TOKEN_REPLY_ID ==> r == Err::<String, ContractError>(
            ContractError::UnknownContinuation,
        ) && *final(reg) == *old(reg),
        id == INSTANTIATE_TOKEN_REPLY_ID ==> ({
            &&& (outcome matches SubCallOutcome::Failure { reason } ==> r == Err::<
                String,
                ContractError,
            >(ContractError::DeploymentFailed { reason }) && *final(reg) == *old(reg))
            &&& (outcome matches SubCallOutcome::Success { events } ==> ({
                let a = instantiate_address(events@);
                let p = first_pending(old(reg).tokens@);
                &&& (a is None ==> r == Err::<String, ContractError>(ContractError::Internal)
                    && *final(reg) == *old(reg))
                &&& (a matches Some(ad) ==> ({
                    if ad.len() == 0 || p == old(reg).tokens@.len() {
                        r == Err::<String, ContractError>(ContractError::Internal) && *final(reg)
                            == *old(reg)
                    } else {
                        (r matches Ok(s) && s@ == ad) && finalized_at(*old(reg), *final(reg), ad, p)
                    }
                }))
            }))
        }),
{
    if id != INSTANTIATE_TOKEN_REPLY_ID {
        return Err(ContractError::UnknownContinuation);
    }
    match outcome {
        SubCallOutcome::Failure { reason } => Err(ContractError::DeploymentFailed { reason }),
        SubCallOutcome::Success { events } => {
            let addr = match find_instantiate_address(&events) {
                None => {
                    return Err(ContractError::Internal);
                },
                Some(a) => a,
            };
            if addr.as_str().is_empty() {
                return Err(ContractError::Internal);
            }
            let p = find_pending(&reg.tokens);
            proof {
                lemma_first_where_bounds(reg.tokens@, pending_pred());
            }
            if p == reg.tokens.len() {
                return Err(ContractError::Internal);
            }
            let mut rec = reg.tokens.remove(p);
            rec.contract_address = addr.clone();
            reg.tokens.insert(p, rec);
            proof {
                let s = old(reg).tokens@;
                let s2 = reg.tokens@;
                assert(s2 =~= s.update(p as int, s2[p as int]));
                assert forall|i: int, j: int| 0 <= i < j < s2.len() implies lex_lt(
                    s2[i].symbol@,
                    s2[j].symbol@,
                ) by {
                    assert(s2[i].symbol == s[i].symbol);
                    assert(s2[j].symbol == s[j].symbol);
                }
                lemma_count_where_update(s, finalized_pred(), p as int, s2[p as int]);
                lemma_count_where_le_len(s2, finalized_pred());
                assert(count_finalized(s2) == count_finalized(s) + 1);
            }
            reg.token_count = reg.token_count + 1;
            Ok(addr)
        },
    }
}

/// How a token record is projected into a query answer.
pub open spec fn token_response_matches(rsp: TokenInfoResponse, t: TokenInfo) -> bool {
    &&& rsp.contract_address@ == t.contract_address@
    &&& rsp.symbol@ == t.symbol@
    &&& rsp.name@ == t.name@
    &&& rsp.creator@ == t.creator@
    &&& rsp.created_at == t.created_at
}

fn token_response(t: &TokenInfo) -> (r: TokenInfoResponse)
    ensures
        token_response_matches(r, *t),
{
    TokenInfoResponse {
        contract_address: t.contract_address.clone(),
        symbol: t.symbol.clone(),
        name: t.name.clone(),
        creator: t.creator.clone(),
        created_at: t.created_at,
    }
}

pub open spec fn config_response_matches(rsp: ConfigResponse, cfg: Config) -> bool {
    &&& rsp.owner@ == cfg.owner@
    &&& rsp.cw20_code_id == cfg.cw20_code_id
    &&& rsp.creation_fee == cfg.creation_fee
}

/// A snapshot of the configuration.
pub fn query_config(reg: &Registry) -> (r: ConfigResponse)
    ensures
        config_response_matches(r, reg.config),
{
    ConfigResponse {
        owner: reg.config.owner.clone(),
        cw20_code_id: reg.config.cw20_code_id,
        creation_fee: reg.config.creation_fee,
    }
}

/// What looking up one symbol must answer: its record — pending or finalized
/// — when it is registered, and `NotFound` when it is not.
pub open spec fn token_info_matches(
    reg: Registry,
    symbol: Seq<char>,
    r: Result<TokenInfoResponse, ContractError>,
) -> bool {
    &&& (has_symbol(reg.tokens@, symbol) ==> (r matches Ok(t) && token_response_matches(
        t,
        reg.tokens@[symbol_index(reg.tokens@, symbol)],
    )))
    &&& (!has_symbol(reg.tokens@, symbol) ==> r == Err::<TokenInfoResponse, ContractError>(
        ContractError::NotFound,
    ))
}

/// The record registered under exactly this symbol.
pub fn query_token_info(reg: &Registry, symbol: String) -> (r: Result<
    TokenInfoResponse,
    ContractError,
>)
    ensures
        token_info_matches(*reg, symbol@, r),
{
    let n = reg.tokens.len();
    let mut i: usize = 0;
    while i < n
        invariant
            i <= n,
            n == reg.tokens@.len(),
            forall|j: int| 0 <= j < i ==> reg.tokens@[j].symbol@ != symbol@,
        decreases n - i,
    {
        if reg.tokens[i].symbol == symbol {
            proof {
                lemma_first_where_is(reg.tokens@, sym_is(symbol@), i as int);
                assert(has_symbol(reg.tokens@, symbol@));
            }
            return Ok(token_response(&reg.tokens[i]));
        }
        i += 1;
    }
    Err(ContractError::NotFound)
}

/// The page size a listing honours: the requested limit, defaulted and
/// capped.
pub open spec fn spec_limit(limit: Option<u32>) -> int {
    let l = match limit {
        Some(v) => v as int,
        None => DEFAULT_LIMIT as int,
    };
    if l > MAX_LIMIT as int {
        MAX_LIMIT as int
    } else {
        l
    }
}

/// Where a listing page begins: at the first record, or just above
/// `start_after` when it is given.
pub open spec fn list_start(s: Seq<TokenInfo>, start_after: Option<String>) -> int {
    match start_after {
        None => 0,
        Some(sa) => first_above(s, sa@),
    }
}

/// What a listing must answer: the run of records from `list_start`, in table
/// order, cut off at the honoured page size.
pub open spec fn token_list_matches(
    reg: Registry,
    start_after: Option<String>,
    limit: Option<u32>,
    r: TokenListResponse,
) -> bool {
    let s = reg.tokens@;
    let st = list_start(s, start_after);
    let n = if spec_limit(limit) <= s.len() - st {
        spec_limit(limit)
    } else {
        s.len() - st
    };
    &&& r.tokens@.len() == n
    &&& forall|k: int| 0 <= k < n ==> token_response_matches(r.tokens@[k], s[st + k])
}

/// Registered tokens in ascending symbol order, strictly after `start_after`
/// when it is given, at most `limit` (default 30, never more than 100) of
/// them.
pub fn query_token_list(reg: &Registry, start_after: Option<String>, limit: Option<u32>) -> (r:
    TokenListResponse)
    ensures
        token_list_matches(*reg, start_after, limit, r),
{
    let cap_u32 = match limit {
        Some(l) => if l > MAX_LIMIT {
            MAX_LIMIT
        } else {
            l
        },
        None => DEFAULT_LIMIT,
    };
    let cap = cap_u32 as usize;
    let start = match &start_after {
        Some(sa) => insert_position(&reg.tokens, sa),
        None => 0,
    };
    proof {
        if start_after is Some {
            lemma_first_where_bounds(reg.tokens@, above(start_after.unwrap()@));
        }
    }
    let n = reg.tokens.len();
    let mut out: Vec<TokenInfoResponse> = Vec::new();
    let mut k = start;
    while k < n && out.len() < cap
        invariant
            start <= k <= n,
            n == reg.tokens@.len(),
            cap == spec_limit(limit),
            start == list_start(reg.tokens@, start_after),
            out@.len() == k - start,
            out@.len() <= cap,
            forall|j: int|
                0 <= j < out@.len() ==> token_response_matches(out@[j], reg.tokens@[start + j]),
        decreases n - k,
    {
        let rsp = token_response(&reg.tokens[k]);
        out.push(rsp);
        k += 1;
    }
    TokenListResponse { tokens: out }
}

/// The finalized-registration counter.
pub fn query_stats(reg: &Registry) -> (r: StatsResponse)
    ensures
        r.total_tokens == reg.token_count,
{
    StatsResponse { total_tokens: reg.token_count }
}

/// Dispatches an execute message.  `caller_valid` and `owner_valid` are the
/// host's verdicts on the caller and on a new owner named in an update.
#[allow(unused_variables)]
pub fn execute(
    reg: &mut Registry,
    caller: String,
    caller_valid: bool,
    owner_valid: bool,
    funds: Vec<Coin>,
    now: u64,
    msg: ExecuteMsg,
) -> (r: Result<Response, ContractError>)
    requires
        old(reg).wf(),
    ensures
        final(reg).wf(),
        (msg matches ExecuteMsg::CreateToken { name, symbol, total_supply, image_url, description }
            ==> ({
            let err = create_token_error(
                old(reg).config,
                old(reg).tokens@,
                caller@,
                caller_valid,
                funds@,
                name@,
                symbol@,
                total_supply,
            );
            &&& (err matches Some(e) ==> r == Err::<Response, ContractError>(e) && *final(reg)
                == *old(reg))
            &&& (err is None ==> (r matches Ok(resp) && create_token_accepted(
                *old(reg),
                *final(reg),
                resp,
                caller@,
                name@,
                symbol@,
                total_supply,
                now,
            )))
        })),
        (msg matches ExecuteMsg::UpdateConfig { owner, cw20_code_id, creation_fee } ==> ({
            let err = update_config_error(old(reg).config, caller@, owner, owner_valid);
            &&& (err matches Some(e) ==> r == Err::<Response, ContractError>(e) && *final(reg)
                == *old(reg))
            &&& (err is None ==> (r matches Ok(resp) && resp.fee_transfer is None
                && resp.deployment is None && config_updated(
                *old(reg),
                *final(reg),
                owner,
                cw20_code_id,
                creation_fee,
            )))
        })),
{
    match msg {
        ExecuteMsg::CreateToken { name, symbol, total_supply, image_url, description } => {
            execute_create_token(
                reg,
                caller,
                caller_valid,
                funds,
                name,
                symbol,
                total_supply,
                image_url,
                description,
                now,
            )
        },
        ExecuteMsg::UpdateConfig { owner, cw20_code_id, creation_fee } => {
            match execute_update_config(reg, caller, owner, owner_valid, cw20_code_id, creation_fee) {
                Ok(_) => Ok(Response { fee_transfer: None, deployment: None }),
                Err(e) => Err(e),
            }
        },
    }
}

/// Dispatches a query message.  Queries take the registry by shared
/// reference: they cannot mutate it, and their answers are functions of the
/// state alone.
pub fn query(reg: &Registry, msg: QueryMsg) -> (r: Result<QueryAnswer, ContractError>)
    ensures
        (msg matches QueryMsg::Config ==> (r matches Ok(a) && a matches QueryAnswer::Config(c)
            && config_response_matches(c, reg.config))),
        (msg matches QueryMsg::TokenInfo { symbol } ==> ({
            &&& (has_symbol(reg.tokens@, symbol@) ==> (r matches Ok(a) && a
                matches QueryAnswer::TokenInfo(t) && token_info_matches(*reg, symbol@, Ok(t))))
            &&& (!has_symbol(reg.tokens@, symbol@) ==> r == Err::<QueryAnswer, ContractError>(
                ContractError::NotFound,
            ))
        })),
        (msg matches QueryMsg::TokenList { start_after, limit } ==> (r matches Ok(a) && a
            matches QueryAnswer::TokenList(l) && token_list_matches(*reg, start_after, limit, l))),
        (msg matches QueryMsg::Stats ==> (r matches Ok(a) && a matches QueryAnswer::Stats(s)
            && s.total_tokens == reg.token_count)),
{
    match msg {
        QueryMsg::Config => Ok(QueryAnswer::Config(query_config(reg))),
        QueryMsg::TokenInfo { symbol } => {
            match query_token_info(reg, symbol) {
                Ok(t) => Ok(QueryAnswer::TokenInfo(t)),
                Err(e) => Err(e),
            }
        },
        QueryMsg::TokenList { start_after, limit } => {
            Ok(QueryAnswer::TokenList(query_token_list(reg, start_after, limit)))
        },
        QueryMsg::Stats => Ok(QueryAnswer::Stats(query_stats(reg))),
    }
}

} // verus!
