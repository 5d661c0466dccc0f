//! Messages into the registry and the values it answers or emits.

use vstd::prelude::*;

verus! {

/// A single fund entry attached to a call: an amount of one denomination.
#[derive(Debug, Clone)]
pub struct Coin {
    pub denom: String,
    pub amount: u128,
}

pub struct InstantiateMsg {
    pub cw20_code_id: u64,
    pub creation_fee: u128,
}

pub enum ExecuteMsg {
    CreateToken {
        name: String,
        symbol: String,
        total_supply: u128,
        image_url: String,
        description: String,
    },
    UpdateConfig {
        owner: Option<String>,
        cw20_code_id: Option<u64>,
        creation_fee: Option<u128>,
    },
}

pub enum QueryMsg {
    Config,
    TokenInfo { symbol: String },
    TokenList { start_after: Option<String>, limit: Option<u32> },
    Stats,
}

/// An instruction to transfer funds, emitted for the host to execute.
#[derive(Debug, Clone)]
pub struct FeeTransfer {
    pub to_address: String,
    pub denom: String,
    pub amount: u128,
}

/// An instruction to deploy a token from the configured template, emitted for
/// the host to execute as a delegated sub-call tagged with `reply_id`.
#[derive(Debug, Clone)]
pub struct TokenDeployment {
    pub code_id: u64,
    pub name: String,
    pub symbol: String,
    pub decimals: u8,
    pub initial_holder: String,
    pub initial_amount: u128,
    pub minter: String,
    pub admin: String,
    pub label: String,
    pub reply_id: u64,
}

/// What a successful call hands back to the host: at most one fund transfer
/// and at most one delegated deployment.
#[derive(Debug, Clone)]
pub struct Response {
    pub fee_transfer: Option<FeeTransfer>,
    pub deployment: Option<TokenDeployment>,
}

/// One key/value attribute of a host event.
#[derive(Debug, Clone)]
pub struct EventAttribute {
    pub key: String,
    pub value: String,
}

/// An event the host recorded while executing a delegated sub-call.
#[derive(Debug, Clone)]
pub struct Event {
    pub ty: String,
    pub attributes: Vec<EventAttribute>,
}

/// The result of a delegated deployment, as the host reports it to the
/// continuation entry point.
pub enum SubCallOutcome {
    Success { events: Vec<Event> },
    Failure { reason: String },
}

#[derive(Debug, Clone)]
pub struct ConfigResponse {
    pub owner: String,
    pub cw20_code_id: u64,
    pub creation_fee: u128,
}

#[derive(Debug, Clone)]
pub struct TokenInfoResponse {
    pub contract_address: String,
    pub symbol: String,
    pub name: String,
    pub creator: String,
    pub created_at: u64,
}

#[derive(Debug, Clone)]
pub struct TokenListResponse {
    pub tokens: Vec<TokenInfoResponse>,
}

#[derive(Debug, Clone)]
pub struct StatsResponse {
    pub total_tokens: u64,
}

/// The answer to a query message.
#[derive(Debug)]
pub enum QueryAnswer {
    Config(ConfigResponse),
    TokenInfo(TokenInfoResponse),
    TokenList(TokenListResponse),
    Stats(StatsResponse),
}

} // verus!
