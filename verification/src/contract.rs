use crate::error::ContractError;
use crate::games::Games;
use crate::msg::{
    Attribute, BankSend, Coin, ExecuteMsg, InstantiateMsg, QueryMsg, ResultResponse, Response,
};
use crate::state::{
    spec_bet_result, spec_host_result, spec_rand_move, rand_move, Game, GameMove, GameResult,
    Random, State,
};
use crate::utils::{
    base64_encode, base64_of, dec_of, draw_of, sha256_of, sha_256, u128_to_string, Prng,
};
use vstd::prelude::*;
use vstd::slice::slice_to_vec;
use vstd::string::{StrSliceExecFns, StringExecFns, StringSliceAdditionalSpecFns};
use vstd::utf8::encode_utf8;

verus! {

/// Whether attribute `a` carries key `k` and value `v`.
pub open spec fn attr_is(a: Attribute, k: Seq<char>, v: Seq<char>) -> bool {
    a.key@ == k && a.value@ == v
}

/// Whether `m` instructs the ledger to move `amount` of `denom` to `to`.
pub open spec fn send_is(m: BankSend, to: Seq<char>, amount: int, denom: Seq<char>) -> bool {
    m.to_address@ == to && m.amount == amount && m.denom@ == denom
}

/// The response initialization emits: no transfers, only attributes.
pub open spec fn is_instantiate_response(r: Response, owner: Seq<char>) -> bool {
    &&& r.messages@.len() == 0
    &&& r.attributes@.len() == 2
    &&& attr_is(r.attributes@[0], "method"@, "instantiate"@)
    &&& attr_is(r.attributes@[1], "owner"@, owner)
}

/// The response a successful session start emits.
pub open spec fn is_start_response(
    r: Response,
    host: Seq<char>,
    opponent: Seq<char>,
    mv: GameMove,
) -> bool {
    &&& r.messages@.len() == 0
    &&& r.attributes@.len() == 4
    &&& attr_is(r.attributes@[0], "action"@, "start_game"@)
    &&& attr_is(r.attributes@[1], "host"@, host)
    &&& attr_is(r.attributes@[2], "opponent"@, opponent)
    &&& attr_is(r.attributes@[3], "host_move"@, mv.spec_label())
}

/// The response a resolving answer to a session emits: informational only,
/// no fund movement is attached in the turn-based flow.
pub open spec fn is_result_response(r: Response, result: GameResult) -> bool {
    &&& r.messages@.len() == 0
    &&& r.attributes@.len() == 2
    &&& attr_is(r.attributes@[0], "game_status"@, "finished"@)
    &&& attr_is(r.attributes@[1], "Result"@, result.spec_label())
}

/// The response of a bet: a winning caller is paid twice the stake, a losing
/// caller has the stake returned, and a tie moves nothing.
pub open spec fn is_bet_response(
    r: Response,
    caller: Seq<char>,
    denom: Seq<char>,
    amount: int,
    result: GameResult,
) -> bool {
    &&& r.attributes@.len() == 2
    &&& attr_is(r.attributes@[0], "action"@, "bet_token"@)
    &&& attr_is(r.attributes@[1], "result"@, result.spec_label())
    &&& if result == (GameResult::PlayerWins()) {
        r.messages@.len() == 1 && send_is(r.messages@[0], caller, 2 * amount, denom)
    } else if result == (GameResult::ContractWins()) {
        r.messages@.len() == 1 && send_is(r.messages@[0], caller, amount, denom)
    } else {
        r.messages@.len() == 0
    }
}

/// The response of an owner withdrawal.
pub open spec fn is_withdraw_response(
    r: Response,
    caller: Seq<char>,
    amount: u128,
    denom: Seq<char>,
) -> bool {
    &&& r.messages@.len() == 1
    &&& send_is(r.messages@[0], caller, amount as int, denom)
    &&& r.attributes@.len() == 3
    &&& attr_is(r.attributes@[0], "action"@, "withdraw"@)
    &&& attr_is(r.attributes@[1], "amount"@, dec_of(amount as int))
    &&& attr_is(r.attributes@[2], "denom"@, denom)
}

/// Whether the attached funds are acceptable for a bet: exactly one coin of
/// strictly positive amount.
pub open spec fn valid_funds(funds: Seq<Coin>) -> bool {
    funds.len() == 1 && funds[0].amount > 0
}

/// Everything a start-game call does: with a malformed opponent it fails
/// validation; with a session already under the ordered (host, opponent) key
/// it fails AlreadyStarted; otherwise it stores a fresh awaiting-response
/// session under that key and touches no other key.
pub open spec fn start_game_spec(
    pre: Games,
    post: Games,
    host: Seq<char>,
    opponent: Seq<char>,
    opponent_valid: bool,
    mv: GameMove,
    r: Result<Response, ContractError>,
) -> bool {
    if !opponent_valid {
        r == Err::<Response, ContractError>(ContractError::InvalidIdentity {}) && post == pre
    } else if pre.spec_get(host, opponent) is Some {
        r == Err::<Response, ContractError>(ContractError::AlreadyStarted {}) && post == pre
    } else {
        &&& r matches Ok(resp) && is_start_response(resp, host, opponent, mv)
        &&& post.spec_get(host, opponent) matches Some(g) && g.host@ == host && g.opponent@
            == opponent && g.host_move == mv && g.opp_move is None && g.result is None
        &&& forall|h: Seq<char>, o: Seq<char>|
            !(h == host && o == opponent) ==> post.spec_get(h, o) == pre.spec_get(h, o)
    }
}

/// Everything a respond call does: with a malformed host it fails validation;
/// with no session under (host, responder) it fails GameNotFound; with a
/// stored opponent other than the responder it fails UnauthorizedOpponent;
/// otherwise it resolves the session against the stored host move, purges it,
/// and touches no other key. Resolution is terminal: the record is gone.
pub open spec fn respond_spec(
    pre: Games,
    post: Games,
    responder: Seq<char>,
    host: Seq<char>,
    host_valid: bool,
    mv: GameMove,
    r: Result<Response, ContractError>,
) -> bool {
    if !host_valid {
        r == Err::<Response, ContractError>(ContractError::InvalidIdentity {}) && post == pre
    } else {
        match pre.spec_get(host, responder) {
            None => r == Err::<Response, ContractError>(ContractError::GameNotFound {}) && post
                == pre,
            Some(g) => {
                if g.opponent@ != responder {
                    r == Err::<Response, ContractError>(ContractError::UnauthorizedOpponent {})
                        && post == pre
                } else {
                    &&& r matches Ok(resp) && is_result_response(
                        resp,
                        spec_host_result(g.host_move, mv),
                    )
                    &&& post.spec_get(host, responder) is None
                    &&& forall|h: Seq<char>, o: Seq<char>|
                        !(h == host && o == responder) ==> post.spec_get(h, o) == pre.spec_get(
                            h,
                            o,
                        )
                }
            },
        }
    }
}

/// Everything a bet call does: it rejects malformed payments and bets beyond
/// the custodial reserve without touching the chain; otherwise it advances
/// the entropy chain exactly once, draws the house move from the new chain
/// value, and pays out by the outcome.
pub open spec fn bet_token_spec(
    pre: Random,
    post: Random,
    caller: Seq<char>,
    mv: GameMove,
    contribution: Seq<u8>,
    funds: Seq<Coin>,
    balance: u128,
    r: Result<Response, ContractError>,
) -> bool {
    if !valid_funds(funds) {
        r == Err::<Response, ContractError>(ContractError::InvalidPayment {}) && post == pre
    } else if balance < funds[0].amount {
        r == Err::<Response, ContractError>(ContractError::InsufficientReserve {}) && post == pre
    } else {
        let draw = draw_of(pre.entropy@, contribution);
        let house = spec_rand_move(draw[0]);
        &&& post.prng_seed == pre.prng_seed
        &&& post.entropy@ == draw
        &&& r matches Ok(resp) && is_bet_response(
            resp,
            caller,
            funds[0].denom@,
            funds[0].amount as int,
            spec_bet_result(mv, house),
        )
    }
}

/// Everything a withdrawal does: only the configured owner may withdraw, the
/// reserve is checked before the zero-amount rule, and a granted request
/// moves exactly the named coin to the owner.
pub open spec fn withdraw_spec(
    owner: Seq<char>,
    caller: Seq<char>,
    coin: Coin,
    balance: u128,
    r: Result<Response, ContractError>,
) -> bool {
    if caller != owner {
        r == Err::<Response, ContractError>(ContractError::Unauthorized {})
    } else if balance < coin.amount {
        r == Err::<Response, ContractError>(ContractError::InsufficientReserve {})
    } else if coin.amount == 0 {
        r == Err::<Response, ContractError>(ContractError::NoFunds {})
    } else {
        r matches Ok(resp) && is_withdraw_response(resp, caller, coin.amount, coin.denom@)
    }
}

/// Everything a result query does: a missing session is reported distinctly
/// from a session that exists but has no winner yet, and the store is never
/// mutated.
pub open spec fn query_result_spec(
    games: Games,
    host: Seq<char>,
    opponent: Seq<char>,
    host_valid: bool,
    opponent_valid: bool,
    r: Result<ResultResponse, ContractError>,
) -> bool {
    if !host_valid || !opponent_valid {
        r == Err::<ResultResponse, ContractError>(ContractError::InvalidIdentity {})
    } else {
        match games.spec_get(host, opponent) {
            None => r == Err::<ResultResponse, ContractError>(ContractError::GameNotFound {}),
            Some(g) => match g.result {
                None => r == Err::<ResultResponse, ContractError>(
                    ContractError::GameNotFinished {},
                ),
                Some(res) => r == Ok::<ResultResponse, ContractError>(
                    ResultResponse { result: res },
                ),
            },
        }
    }
}

impl ResultResponse {
    /// The response payload a resolved session is reported through.
    pub fn to_response(self) -> (r: Response)
        ensures
            is_result_response(r, self.result),
    {
        let mut attributes: Vec<Attribute> = Vec::new();
        attributes.push(attr("game_status", String::from_str("finished")));
        attributes.push(attr("Result", self.result.label()));
        Response { messages: Vec::new(), attributes }
    }
}

/// Builds one attribute from a literal key and an owned value.
fn attr(key: &str, value: String) -> (a: Attribute)
    ensures
        a.key@ == key@,
        a.value == value,
{
    Attribute { key: String::from_str(key), value }
}

/// Sets up the configuration: the caller becomes the owner, and the entropy
/// chain is seeded from the caller-provided initialization string. The seed
/// is fixed here and never mutated afterwards; only `entropy` advances.
pub fn instantiate(sender: String, msg: InstantiateMsg) -> (r: (State, Random, Response))
    ensures
        r.0.owner@ == sender@,
        r.1.prng_seed@ == sha256_of(encode_utf8(base64_of(encode_utf8(msg.prng_seed@)))),
        r.1.entropy@ == encode_utf8(msg.prng_seed@),
        is_instantiate_response(r.2, sender@),
{
    let encoded = base64_encode(msg.prng_seed.as_str().as_bytes());
    let seed_hash = sha_256(encoded.as_str().as_bytes());
    let rand_state = Random {
        prng_seed: slice_to_vec(seed_hash.as_slice()),
        entropy: msg.prng_seed.as_str().as_bytes_vec(),
    };
    let state = State { owner: sender.clone() };

    let mut attributes: Vec<Attribute> = Vec::new();
    attributes.push(attr("method", String::from_str("instantiate")));
    attributes.push(attr("owner", sender));
    let response = Response { messages: Vec::new(), attributes };
    (state, rand_state, response)
}

/// Checks that the attached funds are exactly one coin of positive amount
/// and hands that coin back.
pub fn validate_sent_funds(funds: Vec<Coin>) -> (r: Result<Coin, ContractError>)
    ensures
        valid_funds(funds@) ==> (r matches Ok(c) && c == funds@[0]),
        !valid_funds(funds@) ==> r == Err::<Coin, ContractError>(ContractError::InvalidPayment {}),
{
    if funds.len() != 1 {
        return Err(ContractError::InvalidPayment {});
    }
    let fund = &funds[0];
    if fund.amount == 0 {
        return Err(ContractError::InvalidPayment {});
    }
    Ok(Coin { denom: fund.denom.clone(), amount: fund.amount })
}

/// Checks that the custodial reserve covers the requested amount.
pub fn validate_balance(balance: u128, amount: u128) -> (r: Result<bool, ContractError>)
    ensures
        balance >= amount ==> r == Ok::<bool, ContractError>(true),
        balance < amount ==> r == Err::<bool, ContractError>(
            ContractError::InsufficientReserve {},
        ),
{
    if balance < amount {
        return Err(ContractError::InsufficientReserve {});
    }
    Ok(true)
}

/// Opens a session: the caller is the host, the named opponent must answer
/// before the pair can play again. The ordered pair is the key, so the same
/// two parties may host one session each way at once.
pub fn try_start_game(
    games: &mut Games,
    sender: String,
    opponent: String,
    opponent_valid: bool,
    first_move: GameMove,
) -> (r: Result<Response, ContractError>)
    requires
        old(games).wf(),
    ensures
        final(games).wf(),
        start_game_spec(
            *old(games),
            *final(games),
            sender@,
            opponent@,
            opponent_valid,
            first_move,
            r,
        ),
{
    if !opponent_valid {
        return Err(ContractError::InvalidIdentity {});
    }
    match games.may_load(&sender, &opponent) {
        Some(_) => Err(ContractError::AlreadyStarted {}),
        None => {
            let game = Game {
                host: sender.clone(),
                opponent: opponent.clone(),
                host_move: first_move,
                opp_move: None,
                result: None,
            };
            games.save(game);

            let mut attributes: Vec<Attribute> = Vec::new();
            attributes.push(attr("action", String::from_str("start_game")));
            attributes.push(attr("host", sender));
            attributes.push(attr("opponent", opponent));
            attributes.push(attr("host_move", first_move.label()));
            Ok(Response { messages: Vec::new(), attributes })
        },
    }
}

/// The resolved outcome of a session, if the opponent has answered. Both
/// fields of the answer are set together, so a session has a result exactly
/// when it has an opponent move.
pub open spec fn spec_game_result(game: Game) -> Option<GameResult> {
    match game.opp_move {
        None => None,
        Some(om) => Some(spec_host_result(game.host_move, om)),
    }
}

/// Resolves a session record against the rules: host perspective.
pub fn get_game_result(game: Game) -> (r: Option<GameResult>)
    ensures
        r == spec_game_result(game),
{
    match game.opp_move {
        None => None,
        Some(om) => {
            let result = match game.host_move {
                GameMove::Rock {} => match om {
                    GameMove::Rock {} => GameResult::Tie {},
                    GameMove::Paper {} => GameResult::OpponentWins {},
                    GameMove::Scissors {} => GameResult::HostWins {},
                },
                GameMove::Paper {} => match om {
                    GameMove::Rock {} => GameResult::HostWins {},
                    GameMove::Paper {} => GameResult::Tie {},
                    GameMove::Scissors {} => GameResult::OpponentWins {},
                },
                GameMove::Scissors {} => match om {
                    GameMove::Rock {} => GameResult::OpponentWins {},
                    GameMove::Paper {} => GameResult::HostWins {},
                    GameMove::Scissors {} => GameResult::Tie {},
                },
            };
            Some(result)
        },
    }
}

/// Answers a pending session as its opponent: computes the outcome, purges
/// the session, and reports the outcome informationally (no funds move in
/// this flow). A repeat answer finds no session and fails.
pub fn try_respond_to_game(
    games: &mut Games,
    sender: String,
    host: String,
    host_valid: bool,
    second_move: GameMove,
) -> (r: Result<Response, ContractError>)
    requires
        old(games).wf(),
    ensures
        final(games).wf(),
        respond_spec(*old(games), *final(games), sender@, host@, host_valid, second_move, r),
{
    if !host_valid {
        return Err(ContractError::InvalidIdentity {});
    }
    match games.may_load(&host, &sender) {
        None => Err(ContractError::GameNotFound {}),
        Some(game) => {
            if game.opponent != sender {
                return Err(ContractError::UnauthorizedOpponent {});
            }
            let updated = Game {
                host: game.host,
                opponent: game.opponent,
                host_move: game.host_move,
                opp_move: Some(second_move),
                result: None,
            };
            let result = match get_game_result(updated) {
                Some(res) => res,
                None => {
                    // An answered session always resolves.
                    assert(false);
                    GameResult::Tie {}
                },
            };
            games.remove(&host, &sender);
            let game_response = ResultResponse { result };
            Ok(game_response.to_response())
        },
    }
}

/// Plays one immediate game against the house for the attached stake: the
/// entropy chain is advanced exactly once, the new chain value selects the
/// house move, and the payout follows the outcome. A losing caller still has
/// the stake sent back: the house never nets a win.
pub fn try_bet_token(
    random: &mut Random,
    sender: String,
    opp_move: GameMove,
    entropy: String,
    funds: Vec<Coin>,
    contract_balance: u128,
) -> (r: Result<Response, ContractError>)
    requires
        valid_funds(funds@) ==> funds@[0].amount <= u128::MAX / 2,
    ensures
        bet_token_spec(
            *old(random),
            *final(random),
            sender@,
            opp_move,
            encode_utf8(entropy@),
            funds@,
            contract_balance,
            r,
        ),
{
    let fund = match validate_sent_funds(funds) {
        Ok(f) => f,
        Err(e) => {
            return Err(e);
        },
    };
    match validate_balance(contract_balance, fund.amount) {
        Ok(_) => {},
        Err(e) => {
            return Err(e);
        },
    }

    let rng = Prng::new_rand_bytes(random.entropy.as_slice(), entropy.as_str().as_bytes());
    let contract_move = rand_move(rng.as_slice());
    random.entropy = rng;

    let result = match opp_move {
        GameMove::Rock {} => match contract_move {
            GameMove::Rock {} => GameResult::Tie {},
            GameMove::Paper {} => GameResult::ContractWins(),
            GameMove::Scissors {} => GameResult::PlayerWins(),
        },
        GameMove::Paper {} => match contract_move {
            GameMove::Rock {} => GameResult::PlayerWins(),
            GameMove::Paper {} => GameResult::Tie {},
            GameMove::Scissors {} => GameResult::ContractWins(),
        },
        GameMove::Scissors {} => match contract_move {
            GameMove::Rock {} => GameResult::ContractWins(),
            GameMove::Paper {} => GameResult::PlayerWins(),
            GameMove::Scissors {} => GameResult::Tie {},
        },
    };

    let mut messages: Vec<BankSend> = Vec::new();
    match result {
        GameResult::PlayerWins() => {
            messages.push(
                BankSend {
                    to_address: sender.clone(),
                    amount: fund.amount * 2,
                    denom: fund.denom,
                },
            );
        },
        GameResult::ContractWins() => {
            messages.push(
                BankSend { to_address: sender.clone(), amount: fund.amount, denom: fund.denom },
            );
        },
        _ => {},
    }

    let mut attributes: Vec<Attribute> = Vec::new();
    attributes.push(attr("action", String::from_str("bet_token")));
    attributes.push(attr("result", result.label()));
    Ok(Response { messages, attributes })
}

/// Moves reserve funds to the configured owner: an administrative escape
/// hatch sharing the balance discipline of the betting flow.
pub fn try_withdraw(
    state: &State,
    sender: String,
    coin: Coin,
    contract_balance: u128,
) -> (r: Result<Response, ContractError>)
    ensures
        withdraw_spec(state.owner@, sender@, coin, contract_balance, r),
{
    if !(sender == state.owner) {
        return Err(ContractError::Unauthorized {});
    }
    match validate_balance(contract_balance, coin.amount) {
        Ok(_) => {},
        Err(e) => {
            return Err(e);
        },
    }
    if coin.amount == 0 {
        return Err(ContractError::NoFunds {});
    }

    let amount_text = u128_to_string(coin.amount);
    let mut messages: Vec<BankSend> = Vec::new();
    messages.push(
        BankSend { to_address: sender.clone(), amount: coin.amount, denom: coin.denom.clone() },
    );
    let mut attributes: Vec<Attribute> = Vec::new();
    attributes.push(attr("action", String::from_str("withdraw")));
    attributes.push(attr("amount", amount_text));
    attributes.push(attr("denom", coin.denom));
    Ok(Response { messages, attributes })
}

/// Dispatches one mutating request. `addr_valid` is the host validator's
/// verdict on the address argument of the request, and `contract_balance`
/// is the custodial balance in the denomination the request concerns; both
/// are gathered by the caller, which owns all I/O.
pub fn execute(
    state: &State,
    games: &mut Games,
    random: &mut Random,
    sender: String,
    funds: Vec<Coin>,
    addr_valid: bool,
    contract_balance: u128,
    msg: ExecuteMsg,
) -> (r: Result<Response, ContractError>)
    requires
        old(games).wf(),
        (msg matches ExecuteMsg::BetToken { .. } && valid_funds(funds@)) ==> funds@[0].amount
            <= u128::MAX / 2,
    ensures
        final(games).wf(),
        match msg {
            ExecuteMsg::StartGame { opponent, first_move } => start_game_spec(
                *old(games),
                *final(games),
                sender@,
                opponent@,
                addr_valid,
                first_move,
                r,
            ) && *final(random) == *old(random),
            ExecuteMsg::Respond { host, second_move } => respond_spec(
                *old(games),
                *final(games),
                sender@,
                host@,
                addr_valid,
                second_move,
                r,
            ) && *final(random) == *old(random),
            ExecuteMsg::BetToken { first_move, entropy } => bet_token_spec(
                *old(random),
                *final(random),
                sender@,
                first_move,
                encode_utf8(entropy@),
                funds@,
                contract_balance,
                r,
            ) && *final(games) == *old(games),
            ExecuteMsg::Withdraw { coin } => withdraw_spec(
                state.owner@,
                sender@,
                coin,
                contract_balance,
                r,
            ) && *final(games) == *old(games) && *final(random) == *old(random),
        },
{
    match msg {
        ExecuteMsg::StartGame { opponent, first_move } => try_start_game(
            games,
            sender,
            opponent,
            addr_valid,
            first_move,
        ),
        ExecuteMsg::Respond { host, second_move } => try_respond_to_game(
            games,
            sender,
            host,
            addr_valid,
            second_move,
        ),
        ExecuteMsg::BetToken { first_move, entropy } => try_bet_token(
            random,
            sender,
            first_move,
            entropy,
            funds,
            contract_balance,
        ),
        ExecuteMsg::Withdraw { coin } => try_withdraw(state, sender, coin, contract_balance),
    }
}

/// Answers a result query. A pair with no session is distinguished from a
/// session that has no winner yet; with purge-on-resolve semantics the
/// latter answer never carries a winner, so an unresolved session is the
/// only way to see it.
pub fn query_result(
    games: &Games,
    host: String,
    opponent: String,
    host_valid: bool,
    opponent_valid: bool,
) -> (r: Result<ResultResponse, ContractError>)
    ensures
        query_result_spec(*games, host@, opponent@, host_valid, opponent_valid, r),
{
    if !host_valid || !opponent_valid {
        return Err(ContractError::InvalidIdentity {});
    }
    match games.may_load(&host, &opponent) {
        None => Err(ContractError::GameNotFound {}),
        Some(game) => match game.result {
            None => Err(ContractError::GameNotFinished {}),
            Some(result) => Ok(ResultResponse { result }),
        },
    }
}

/// Dispatches one read-only request. The validity flags are the host
/// validator's verdicts on the two address arguments.
pub fn query(
    games: &Games,
    msg: QueryMsg,
    host_valid: bool,
    opponent_valid: bool,
) -> (r: Result<ResultResponse, ContractError>)
    ensures
        match msg {
            QueryMsg::GetResult { host, opponent } => query_result_spec(
                *games,
                host@,
                opponent@,
                host_valid,
                opponent_valid,
                r,
            ),
        },
{
    match msg {
        QueryMsg::GetResult { host, opponent } => query_result(
            games,
            host,
            opponent,
            host_valid,
            opponent_valid,
        ),
    }
}

/// Starting a session for the same ordered pair twice, with no intervening
/// response, always fails the second call with AlreadyStarted and leaves the
/// store exactly as the first call left it.
pub proof fn lemma_start_is_single_shot(
    pre: Games,
    mid: Games,
    post: Games,
    host: Seq<char>,
    opponent: Seq<char>,
    mv1: GameMove,
    mv2: GameMove,
    r1: Result<Response, ContractError>,
    r2: Result<Response, ContractError>,
)
    requires
        pre.spec_get(host, opponent) is None,
        start_game_spec(pre, mid, host, opponent, true, mv1, r1),
        start_game_spec(mid, post, host, opponent, true, mv2, r2),
    ensures
        r1 is Ok,
        r2 == Err::<Response, ContractError>(ContractError::AlreadyStarted {}),
        post == mid,
{
}

/// The two orderings of the same two parties are independent keys: with both
/// keys free, each party may host a pending session against the other at
/// once, and both starts succeed.
pub proof fn lemma_reversed_pairs_independent(
    pre: Games,
    mid: Games,
    post: Games,
    host: Seq<char>,
    opponent: Seq<char>,
    mv1: GameMove,
    mv2: GameMove,
    r1: Result<Response, ContractError>,
    r2: Result<Response, ContractError>,
)
    requires
        host != opponent,
        pre.spec_get(host, opponent) is None,
        pre.spec_get(opponent, host) is None,
        start_game_spec(pre, mid, host, opponent, true, mv1, r1),
        start_game_spec(mid, post, opponent, host, true, mv2, r2),
    ensures
        r1 is Ok,
        r2 is Ok,
        post.spec_get(host, opponent) is Some,
        post.spec_get(opponent, host) is Some,
{
    assert(mid.spec_get(opponent, host) == pre.spec_get(opponent, host));
    assert(post.spec_get(host, opponent) == mid.spec_get(host, opponent));
}

/// Resolution is exactly-once: after a response resolves and purges a
/// session, a repeated response for the same pair fails with GameNotFound
/// and changes nothing.
pub proof fn lemma_respond_is_single_shot(
    pre: Games,
    mid: Games,
    post: Games,
    responder: Seq<char>,
    host: Seq<char>,
    mv1: GameMove,
    mv2: GameMove,
    r1: Result<Response, ContractError>,
    r2: Result<Response, ContractError>,
)
    requires
        pre.spec_get(host, responder) is Some,
        respond_spec(pre, mid, responder, host, true, mv1, r1),
        respond_spec(mid, post, responder, host, true, mv2, r2),
    ensures
        r1 is Ok,
        r2 == Err::<Response, ContractError>(ContractError::GameNotFound {}),
        post == mid,
{
    pre.lemma_key_agreement(host, responder);
}

/// The stored-opponent authorization check agrees with the key-based lookup:
/// a caller who is not a session's stored opponent can never resolve that
/// session. The attempt reads a different key, so it either fails with
/// GameNotFound or resolves the caller's own session; the other session is
/// untouched, and UnauthorizedOpponent itself is unreachable through the
/// store.
pub proof fn lemma_respond_requires_stored_opponent(
    pre: Games,
    post: Games,
    responder: Seq<char>,
    host: Seq<char>,
    opponent: Seq<char>,
    mv: GameMove,
    r: Result<Response, ContractError>,
)
    requires
        responder != opponent,
        respond_spec(pre, post, responder, host, true, mv, r),
    ensures
        post.spec_get(host, opponent) == pre.spec_get(host, opponent),
        r != Err::<Response, ContractError>(ContractError::UnauthorizedOpponent {}),
        pre.spec_get(host, responder) is None ==> r == Err::<Response, ContractError>(
            ContractError::GameNotFound {},
        ) && post == pre,
{
    pre.lemma_key_agreement(host, responder);
}

/// Whether every stored session is still awaiting its response. A session's
/// `opp_move` and `result` are set together, exactly once, at resolution,
/// and resolution immediately purges the record, so a store reached through
/// the request surface only ever holds pending sessions.
pub open spec fn all_pending(games: Games) -> bool {
    forall|h: Seq<char>, o: Seq<char>|
        (#[trigger] games.spec_get(h, o)) matches Some(g) ==> g.opp_move is None
            && g.result is None
}

/// A start call keeps the store pending-only: the session it creates awaits
/// its response, and no other session is touched.
pub proof fn lemma_start_keeps_sessions_pending(
    pre: Games,
    post: Games,
    host: Seq<char>,
    opponent: Seq<char>,
    valid: bool,
    mv: GameMove,
    r: Result<Response, ContractError>,
)
    requires
        all_pending(pre),
        start_game_spec(pre, post, host, opponent, valid, mv, r),
    ensures
        all_pending(post),
{
    assert forall|h: Seq<char>, o: Seq<char>|
        ((#[trigger] post.spec_get(h, o)) matches Some(g) ==> g.opp_move is None
            && g.result is None) by {
        if !(h == host && o == opponent) {
            assert(post.spec_get(h, o) == pre.spec_get(h, o));
        }
    }
}

/// A respond call keeps the store pending-only: resolution purges the
/// session rather than storing the resolved record.
pub proof fn lemma_respond_keeps_sessions_pending(
    pre: Games,
    post: Games,
    responder: Seq<char>,
    host: Seq<char>,
    valid: bool,
    mv: GameMove,
    r: Result<Response, ContractError>,
)
    requires
        all_pending(pre),
        respond_spec(pre, post, responder, host, valid, mv, r),
    ensures
        all_pending(post),
{
    assert forall|h: Seq<char>, o: Seq<char>|
        ((#[trigger] post.spec_get(h, o)) matches Some(g) ==> g.opp_move is None
            && g.result is None) by {
        if !(h == host && o == responder) {
            assert(post.spec_get(h, o) == pre.spec_get(h, o));
        }
    }
}

/// With purge-on-resolve, a stored session never carries a winner: over any
/// pending-only store a result query can answer only with one of the two
/// distinguishable failures, never with an outcome. A winning answer would
/// need a resolved session to persist.
pub proof fn lemma_query_never_finds_winner(
    games: Games,
    host: Seq<char>,
    opponent: Seq<char>,
    r: Result<ResultResponse, ContractError>,
)
    requires
        all_pending(games),
        query_result_spec(games, host, opponent, true, true, r),
    ensures
        r is Err,
{
}

/// Each granted bet advances the entropy chain exactly once: two consecutive
/// bets with the same contribution ratchet the chain through two draws, the
/// second keyed by the first draw's output, so no two draws consume the same
/// chain state.
pub proof fn lemma_bet_ratchets_entropy(
    pre: Random,
    mid: Random,
    post: Random,
    caller: Seq<char>,
    mv: GameMove,
    contribution: Seq<u8>,
    funds: Seq<Coin>,
    balance: u128,
    r1: Result<Response, ContractError>,
    r2: Result<Response, ContractError>,
)
    requires
        valid_funds(funds),
        balance >= funds[0].amount,
        bet_token_spec(pre, mid, caller, mv, contribution, funds, balance, r1),
        bet_token_spec(mid, post, caller, mv, contribution, funds, balance, r2),
    ensures
        r1 is Ok,
        r2 is Ok,
        mid.entropy@ == draw_of(pre.entropy@, contribution),
        post.entropy@ == draw_of(draw_of(pre.entropy@, contribution), contribution),
        post.prng_seed == pre.prng_seed,
{
}

} // verus!
