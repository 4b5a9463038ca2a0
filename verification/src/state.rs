use vstd::prelude::*;
use vstd::string::StringExecFns;

verus! {

/// One of the three playable moves.
#[derive(Clone, Copy, Debug, PartialEq, Eq, Structural)]
pub enum GameMove {
    Rock {},
    Paper {},
    Scissors {},
}

/// The outcome of a resolved game. The turn-based flow labels the two sides
/// host and opponent; the betting flow labels them player and contract. Both
/// labelings are placed over the same underlying relation on move pairs.
#[derive(Clone, Copy, Debug, PartialEq, Eq, Structural)]
pub enum GameResult {
    HostWins {},
    OpponentWins {},
    Tie {},
    ContractWins(),
    PlayerWins(),
}

/// The record of one in-progress or just-resolved session between a host and
/// an opponent, stored under the ordered key (host, opponent).
#[derive(Debug)]
pub struct Game {
    pub host: String,
    pub opponent: String,
    pub host_move: GameMove,
    pub opp_move: Option<GameMove>,
    pub result: Option<GameResult>,
}

/// The administrative record: the identity allowed to withdraw reserves.
#[derive(Debug)]
pub struct State {
    pub owner: String,
}

/// The entropy chain. `prng_seed` is fixed at initialization; `entropy` is
/// consumed and replaced on every draw so no two draws see the same input.
#[derive(Debug)]
pub struct Random {
    pub prng_seed: Vec<u8>,
    pub entropy: Vec<u8>,
}

/// Whether move `a` beats move `b` under rock-paper-scissors.
pub open spec fn beats(a: GameMove, b: GameMove) -> bool {
    ||| (a == (GameMove::Rock {}) && b == (GameMove::Scissors {}))
    ||| (a == (GameMove::Scissors {}) && b == (GameMove::Paper {}))
    ||| (a == (GameMove::Paper {}) && b == (GameMove::Rock {}))
}

/// The outcome of the turn-based flow: the host played `host_move`, the
/// opponent answered with `opp_move`.
pub open spec fn spec_host_result(host_move: GameMove, opp_move: GameMove) -> GameResult {
    if host_move == opp_move {
        GameResult::Tie {}
    } else if beats(host_move, opp_move) {
        GameResult::HostWins {}
    } else {
        GameResult::OpponentWins {}
    }
}

/// The outcome of the betting flow: the caller played `player_move`, the
/// house answered with `house_move`.
pub open spec fn spec_bet_result(player_move: GameMove, house_move: GameMove) -> GameResult {
    if player_move == house_move {
        GameResult::Tie {}
    } else if beats(player_move, house_move) {
        GameResult::PlayerWins()
    } else {
        GameResult::ContractWins()
    }
}

/// The move a drawn byte maps to.
pub open spec fn spec_rand_move(b: u8) -> GameMove {
    if b % 3 == 0 {
        GameMove::Rock {}
    } else if b % 3 == 1 {
        GameMove::Paper {}
    } else {
        GameMove::Scissors {}
    }
}

/// Derives the house move from the leading byte of a drawn byte sequence.
pub fn rand_move(rng: &[u8]) -> (mv: GameMove)
    requires
        rng@.len() >= 1,
    ensures
        mv == spec_rand_move(rng@[0]),
{
    let num: u8 = rng[0] % 3 + 1;
    match num {
        1 => GameMove::Rock {},
        2 => GameMove::Paper {},
        _ => {
            // The modulus leaves no other residue; anything else would be an
            // internal logic fault, not bad input.
            assert(num == 3);
            GameMove::Scissors {}
        },
    }
}

impl GameMove {
    /// The display text of this move.
    pub open spec fn spec_label(&self) -> Seq<char> {
        match self {
            GameMove::Rock {} => "Rock"@,
            GameMove::Paper {} => "Paper"@,
            GameMove::Scissors {} => "Scissors"@,
        }
    }

    /// The display text of this move, as an owned string.
    pub fn label(&self) -> (r: String)
        ensures
            r@ == self.spec_label(),
    {
        match self {
            GameMove::Rock {} => String::from_str("Rock"),
            GameMove::Paper {} => String::from_str("Paper"),
            GameMove::Scissors {} => String::from_str("Scissors"),
        }
    }
}

impl GameResult {
    /// The display text of this outcome.
    pub open spec fn spec_label(&self) -> Seq<char> {
        match self {
            GameResult::HostWins {} => "Host Wins!"@,
            GameResult::OpponentWins {} => "Opponent Wins!"@,
            GameResult::Tie {} => "Game is Tie !"@,
            GameResult::ContractWins() => "Contract Wins!"@,
            GameResult::PlayerWins() => "Player Wins!"@,
        }
    }

    /// The display text of this outcome, as an owned string.
    pub fn label(&self) -> (r: String)
        ensures
            r@ == self.spec_label(),
    {
        match self {
            GameResult::HostWins {} => String::from_str("Host Wins!"),
            GameResult::OpponentWins {} => String::from_str("Opponent Wins!"),
            GameResult::Tie {} => String::from_str("Game is Tie !"),
            GameResult::ContractWins() => String::from_str("Contract Wins!"),
            GameResult::PlayerWins() => String::from_str("Player Wins!"),
        }
    }
}

/// For every pair of moves the two orderings resolve to mirrored outcomes
/// (a host win one way is an opponent win the other way), and identical
/// moves always tie.
pub proof fn lemma_resolve_mirror(a: GameMove, b: GameMove)
    ensures
        spec_host_result(a, b) == (GameResult::HostWins {}) <==> spec_host_result(b, a) == (
        GameResult::OpponentWins {}),
        spec_host_result(a, b) == (GameResult::Tie {}) <==> spec_host_result(b, a) == (
        GameResult::Tie {}),
        spec_host_result(a, a) == (GameResult::Tie {}),
{
}

/// The betting flow's labeling agrees with the turn-based labeling: the two
/// flows apply the same relation on move pairs, with the caller in the
/// first seat.
pub proof fn lemma_bet_labels_agree(a: GameMove, b: GameMove)
    ensures
        spec_bet_result(a, b) == (GameResult::PlayerWins()) <==> spec_host_result(a, b) == (
        GameResult::HostWins {}),
        spec_bet_result(a, b) == (GameResult::ContractWins()) <==> spec_host_result(a, b) == (
        GameResult::OpponentWins {}),
        spec_bet_result(a, b) == (GameResult::Tie {}) <==> spec_host_result(a, b) == (
        GameResult::Tie {}),
{
}

} // verus!
