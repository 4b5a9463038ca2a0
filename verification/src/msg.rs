use crate::state::{Game, GameMove, GameResult};
use vstd::prelude::*;

verus! {

/// A quantity of one token denomination.
#[derive(Debug)]
pub struct Coin {
    pub denom: String,
    pub amount: u128,
}

/// One fund-transfer instruction handed to the host ledger, which executes
/// it atomically with the rest of the call's state commit.
#[derive(Debug)]
pub struct BankSend {
    pub to_address: String,
    pub amount: u128,
    pub denom: String,
}

/// One observability attribute of a response.
#[derive(Debug)]
pub struct Attribute {
    pub key: String,
    pub value: String,
}

/// What a successful call hands back to the dispatch layer: the transfer
/// instructions to execute and the attributes to emit.
#[derive(Debug)]
pub struct Response {
    pub messages: Vec<BankSend>,
    pub attributes: Vec<Attribute>,
}

/// The initialization request: the configured owner and the string the
/// entropy chain is seeded from.
#[derive(Debug)]
pub struct InstantiateMsg {
    pub owner: String,
    pub prng_seed: String,
}

/// The mutating request surface of the contract.
#[derive(Debug)]
pub enum ExecuteMsg {
    StartGame { opponent: String, first_move: GameMove },
    Respond { host: String, second_move: GameMove },
    BetToken { first_move: GameMove, entropy: String },
    Withdraw { coin: Coin },
}

/// The read-only request surface of the contract.
#[derive(Debug)]
pub enum QueryMsg {
    GetResult { host: String, opponent: String },
}

/// The payload answering a result query or a resolving response.
#[derive(Clone, Copy, Debug, PartialEq, Eq, Structural)]
pub struct ResultResponse {
    pub result: GameResult,
}

/// A collection of session records, as a query payload.
#[derive(Debug)]
pub struct GameResponse {
    pub result: Vec<Game>,
}

} // verus!
