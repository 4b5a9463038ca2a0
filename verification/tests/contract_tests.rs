use base64::Engine;
use rand_core::{Rng, SeedableRng};
use sha2::{Digest, Sha256};

use jaken::contract::{
    execute, get_game_result, instantiate, query, query_result, try_bet_token,
    try_respond_to_game, try_start_game, try_withdraw, validate_balance, validate_sent_funds,
};
use jaken::error::ContractError;
use jaken::games::Games;
use jaken::msg::{Coin, ExecuteMsg, InstantiateMsg, QueryMsg};
use jaken::state::{rand_move, Game, GameMove, GameResult, Random, State};

fn coin(denom: &str, amount: u128) -> Coin {
    Coin {
        denom: denom.to_string(),
        amount,
    }
}

fn fresh_random() -> Random {
    Random {
        prng_seed: vec![7u8; 32],
        entropy: b"initial entropy".to_vec(),
    }
}

fn started_games(host: &str, opponent: &str, mv: GameMove) -> Games {
    let mut games = Games::new();
    let r = try_start_game(
        &mut games,
        host.to_string(),
        opponent.to_string(),
        true,
        mv,
    );
    assert!(r.is_ok());
    games
}

#[test]
fn start_game() {
    let mut games = Games::new();
    let mut random = fresh_random();
    let state = State {
        owner: "creator".to_string(),
    };
    let funds = vec![coin("earth", 1000)];
    let msg = ExecuteMsg::StartGame {
        opponent: "opponent".to_string(),
        first_move: GameMove::Paper {},
    };

    // try to start game
    execute(
        &state,
        &mut games,
        &mut random,
        "creator".to_string(),
        funds,
        true,
        2,
        msg,
    )
    .unwrap();

    // load game map
    let game = games
        .may_load(&"creator".to_string(), &"opponent".to_string())
        .unwrap();

    assert_eq!("creator".to_string(), game.host);
    assert_eq!(GameMove::Paper {}, game.host_move);
    assert_eq!("opponent".to_string(), game.opponent);
    assert_eq!(None, game.opp_move);
    assert_eq!(None, game.result);
}

#[test]
fn start_game_with_same_host_diff_opponent() {
    let mut games = Games::new();
    let mut random = fresh_random();
    let state = State {
        owner: "creator".to_string(),
    };
    let msg = ExecuteMsg::StartGame {
        opponent: "opponent".to_string(),
        first_move: GameMove::Paper {},
    };

    // try to start game
    execute(
        &state,
        &mut games,
        &mut random,
        "creator".to_string(),
        vec![coin("earth", 1000)],
        true,
        2,
        msg,
    )
    .unwrap();

    let msg = ExecuteMsg::StartGame {
        opponent: "opponent2".to_string(),
        first_move: GameMove::Paper {},
    };

    // try to start second game
    execute(
        &state,
        &mut games,
        &mut random,
        "creator".to_string(),
        vec![coin("earth", 1000)],
        true,
        2,
        msg,
    )
    .unwrap();

    // load games map
    let game1 = games
        .may_load(&"creator".to_string(), &"opponent".to_string())
        .unwrap();
    let game2 = games
        .may_load(&"creator".to_string(), &"opponent2".to_string())
        .unwrap();

    assert_eq!("creator".to_string(), game1.host);
    assert_eq!(GameMove::Paper {}, game1.host_move);
    assert_eq!("opponent".to_string(), game1.opponent);
    assert_eq!(None, game1.opp_move);
    assert_eq!(None, game1.result);

    assert_eq!("creator".to_string(), game2.host);
    assert_eq!(GameMove::Paper {}, game2.host_move);
    assert_eq!("opponent2".to_string(), game2.opponent);
    assert_eq!(None, game2.opp_move);
    assert_eq!(None, game2.result);
}

#[test]
fn resolve_covers_all_nine_pairs() {
    let moves = [
        GameMove::Rock {},
        GameMove::Paper {},
        GameMove::Scissors {},
    ];
    let expected = [
        // host Rock vs Rock, Paper, Scissors
        [
            GameResult::Tie {},
            GameResult::OpponentWins {},
            GameResult::HostWins {},
        ],
        // host Paper
        [
            GameResult::HostWins {},
            GameResult::Tie {},
            GameResult::OpponentWins {},
        ],
        // host Scissors
        [
            GameResult::OpponentWins {},
            GameResult::HostWins {},
            GameResult::Tie {},
        ],
    ];
    for (i, host_move) in moves.iter().enumerate() {
        for (j, opp_move) in moves.iter().enumerate() {
            let game = Game {
                host: "h".to_string(),
                opponent: "o".to_string(),
                host_move: *host_move,
                opp_move: Some(*opp_move),
                result: None,
            };
            assert_eq!(Some(expected[i][j]), get_game_result(game));
        }
    }
}

#[test]
fn resolve_mirrors_and_ties() {
    let moves = [
        GameMove::Rock {},
        GameMove::Paper {},
        GameMove::Scissors {},
    ];
    for a in moves.iter() {
        for b in moves.iter() {
            let forward = get_game_result(Game {
                host: "h".to_string(),
                opponent: "o".to_string(),
                host_move: *a,
                opp_move: Some(*b),
                result: None,
            })
            .unwrap();
            let backward = get_game_result(Game {
                host: "h".to_string(),
                opponent: "o".to_string(),
                host_move: *b,
                opp_move: Some(*a),
                result: None,
            })
            .unwrap();
            match forward {
                GameResult::HostWins {} => assert_eq!(GameResult::OpponentWins {}, backward),
                GameResult::OpponentWins {} => assert_eq!(GameResult::HostWins {}, backward),
                _ => assert_eq!(GameResult::Tie {}, backward),
            }
        }
        let same = get_game_result(Game {
            host: "h".to_string(),
            opponent: "o".to_string(),
            host_move: *a,
            opp_move: Some(*a),
            result: None,
        });
        assert_eq!(Some(GameResult::Tie {}), same);
    }
}

#[test]
fn unresolved_game_has_no_result() {
    let game = Game {
        host: "h".to_string(),
        opponent: "o".to_string(),
        host_move: GameMove::Rock {},
        opp_move: None,
        result: None,
    };
    assert_eq!(None, get_game_result(game));
}

#[test]
fn second_start_for_same_pair_fails() {
    let mut games = started_games("alice", "bob", GameMove::Rock {});
    let r = try_start_game(
        &mut games,
        "alice".to_string(),
        "bob".to_string(),
        true,
        GameMove::Paper {},
    );
    assert_eq!(Err(ContractError::AlreadyStarted {}), r.map(|_| ()));
    // the existing session is untouched
    let game = games
        .may_load(&"alice".to_string(), &"bob".to_string())
        .unwrap();
    assert_eq!(GameMove::Rock {}, game.host_move);
}

#[test]
fn reversed_pairs_are_independent_keys() {
    let mut games = started_games("alice", "bob", GameMove::Rock {});
    let r = try_start_game(
        &mut games,
        "bob".to_string(),
        "alice".to_string(),
        true,
        GameMove::Scissors {},
    );
    assert!(r.is_ok());
    assert!(games
        .may_load(&"alice".to_string(), &"bob".to_string())
        .is_some());
    assert!(games
        .may_load(&"bob".to_string(), &"alice".to_string())
        .is_some());
}

#[test]
fn invalid_opponent_identity_is_rejected() {
    let mut games = Games::new();
    let r = try_start_game(
        &mut games,
        "alice".to_string(),
        "###".to_string(),
        false,
        GameMove::Rock {},
    );
    assert_eq!(Err(ContractError::InvalidIdentity {}), r.map(|_| ()));
}

#[test]
fn respond_resolves_and_purges() {
    let mut games = started_games("alice", "bob", GameMove::Paper {});
    let r = try_respond_to_game(
        &mut games,
        "bob".to_string(),
        "alice".to_string(),
        true,
        GameMove::Rock {},
    );
    let resp = r.unwrap();
    assert_eq!(0, resp.messages.len());
    assert_eq!("game_status", resp.attributes[0].key);
    assert_eq!("finished", resp.attributes[0].value);
    assert_eq!("Result", resp.attributes[1].key);
    assert_eq!("Host Wins!", resp.attributes[1].value);
    // the session is purged on resolution
    assert!(games
        .may_load(&"alice".to_string(), &"bob".to_string())
        .is_none());
}

#[test]
fn repeat_respond_fails_with_not_found() {
    let mut games = started_games("alice", "bob", GameMove::Paper {});
    try_respond_to_game(
        &mut games,
        "bob".to_string(),
        "alice".to_string(),
        true,
        GameMove::Rock {},
    )
    .unwrap();
    let again = try_respond_to_game(
        &mut games,
        "bob".to_string(),
        "alice".to_string(),
        true,
        GameMove::Rock {},
    );
    assert_eq!(Err(ContractError::GameNotFound {}), again.map(|_| ()));
}

#[test]
fn respond_by_other_identity_leaves_session() {
    let mut games = started_games("alice", "bob", GameMove::Paper {});
    let r = try_respond_to_game(
        &mut games,
        "mallory".to_string(),
        "alice".to_string(),
        true,
        GameMove::Rock {},
    );
    // the store is keyed by the exact opponent, so the stranger's lookup
    // misses; the pending session is unmodified
    assert_eq!(Err(ContractError::GameNotFound {}), r.map(|_| ()));
    let game = games
        .may_load(&"alice".to_string(), &"bob".to_string())
        .unwrap();
    assert_eq!("bob".to_string(), game.opponent);
    assert_eq!(None, game.opp_move);
    assert_eq!(None, game.result);
}

#[test]
fn query_distinguishes_missing_from_unfinished() {
    let games = started_games("alice", "bob", GameMove::Paper {});
    // no session was ever started for this pair
    let missing = query_result(
        &games,
        "alice".to_string(),
        "nobody".to_string(),
        true,
        true,
    );
    assert_eq!(Err(ContractError::GameNotFound {}), missing);
    // a pending session exists but has no winner yet
    let unfinished = query_result(&games, "alice".to_string(), "bob".to_string(), true, true);
    assert_eq!(Err(ContractError::GameNotFinished {}), unfinished);
}

#[test]
fn query_dispatches_get_result() {
    let games = Games::new();
    let r = query(
        &games,
        QueryMsg::GetResult {
            host: "alice".to_string(),
            opponent: "bob".to_string(),
        },
        true,
        true,
    );
    assert_eq!(Err(ContractError::GameNotFound {}), r);
}

#[test]
fn execute_dispatches_each_request() {
    let mut games = started_games("alice", "bob", GameMove::Paper {});
    let mut random = fresh_random();
    let state = State {
        owner: "creator".to_string(),
    };
    let respond = execute(
        &state,
        &mut games,
        &mut random,
        "bob".to_string(),
        vec![],
        true,
        0,
        ExecuteMsg::Respond {
            host: "alice".to_string(),
            second_move: GameMove::Scissors {},
        },
    )
    .unwrap();
    assert_eq!("Opponent Wins!", respond.attributes[1].value);

    let withdraw = execute(
        &state,
        &mut games,
        &mut random,
        "mallory".to_string(),
        vec![],
        true,
        100,
        ExecuteMsg::Withdraw {
            coin: coin("token", 5),
        },
    );
    assert_eq!(Err(ContractError::Unauthorized {}), withdraw.map(|_| ()));

    let before = random.entropy.clone();
    let bet = execute(
        &state,
        &mut games,
        &mut random,
        "player".to_string(),
        vec![coin("token", 3)],
        true,
        50,
        ExecuteMsg::BetToken {
            first_move: GameMove::Paper {},
            entropy: "spin".to_string(),
        },
    );
    assert!(bet.is_ok());
    assert_ne!(before, random.entropy);
}

fn reference_draw(seed: &[u8], entropy: &[u8]) -> Vec<u8> {
    let mut key = [0u8; 32];
    let mut data = Vec::new();
    data.extend_from_slice(seed);
    data.extend_from_slice(entropy);
    key.copy_from_slice(&Sha256::digest(&data));
    let mut rng = rand_chacha::ChaChaRng::from_seed(key);
    let mut block = [0u8; 32];
    rng.fill_bytes(&mut block);
    Sha256::digest(block).to_vec()
}

#[test]
fn instantiate_seeds_the_chain() {
    let (state, random, resp) = instantiate(
        "creator".to_string(),
        InstantiateMsg {
            owner: "creator".to_string(),
            prng_seed: "genesis".to_string(),
        },
    );
    assert_eq!("creator".to_string(), state.owner);
    let encoded = base64::engine::general_purpose::STANDARD.encode("genesis".as_bytes());
    let expected_seed = Sha256::digest(encoded.as_bytes()).to_vec();
    assert_eq!(expected_seed, random.prng_seed);
    assert_eq!(b"genesis".to_vec(), random.entropy);
    assert_eq!(0, resp.messages.len());
    assert_eq!("method", resp.attributes[0].key);
    assert_eq!("instantiate", resp.attributes[0].value);
    assert_eq!("owner", resp.attributes[1].key);
    assert_eq!("creator", resp.attributes[1].value);
}

#[test]
fn bet_advances_the_chain_and_pays_by_outcome() {
    let mut random = fresh_random();
    let before = random.entropy.clone();
    let r = try_bet_token(
        &mut random,
        "player".to_string(),
        GameMove::Rock {},
        "more entropy".to_string(),
        vec![coin("token", 10)],
        50,
    );
    let resp = r.unwrap();

    // the chain advanced to exactly one reference draw
    let expected_entropy = reference_draw(&before, b"more entropy");
    assert_eq!(expected_entropy, random.entropy);
    assert_ne!(before, random.entropy);
    assert_eq!(vec![7u8; 32], random.prng_seed);

    // the house move is the draw's leading byte, and the payout follows it
    let house = rand_move(&expected_entropy);
    let expected_result = match house {
        GameMove::Rock {} => GameResult::Tie {},
        GameMove::Paper {} => GameResult::ContractWins(),
        GameMove::Scissors {} => GameResult::PlayerWins(),
    };
    assert_eq!("action", resp.attributes[0].key);
    assert_eq!("bet_token", resp.attributes[0].value);
    assert_eq!("result", resp.attributes[1].key);
    match expected_result {
        GameResult::PlayerWins() => {
            assert_eq!("Player Wins!", resp.attributes[1].value);
            assert_eq!(1, resp.messages.len());
            assert_eq!("player", resp.messages[0].to_address);
            assert_eq!(20, resp.messages[0].amount);
            assert_eq!("token", resp.messages[0].denom);
        }
        GameResult::ContractWins() => {
            assert_eq!("Contract Wins!", resp.attributes[1].value);
            assert_eq!(1, resp.messages.len());
            assert_eq!("player", resp.messages[0].to_address);
            assert_eq!(10, resp.messages[0].amount);
            assert_eq!("token", resp.messages[0].denom);
        }
        _ => {
            assert_eq!("Game is Tie !", resp.attributes[1].value);
            assert_eq!(0, resp.messages.len());
        }
    }
}

#[test]
fn two_bets_with_same_contribution_draw_differently() {
    let mut random = fresh_random();
    try_bet_token(
        &mut random,
        "player".to_string(),
        GameMove::Rock {},
        "same".to_string(),
        vec![coin("token", 1)],
        50,
    )
    .unwrap();
    let first_entropy = random.entropy.clone();
    try_bet_token(
        &mut random,
        "player".to_string(),
        GameMove::Rock {},
        "same".to_string(),
        vec![coin("token", 1)],
        50,
    )
    .unwrap();
    // the chain state differed before each call, so the draws differ
    assert_ne!(first_entropy, random.entropy);
}

#[test]
fn bet_rejects_bad_payment_and_thin_reserve() {
    let mut random = fresh_random();
    let before = random.entropy.clone();

    let none = try_bet_token(
        &mut random,
        "player".to_string(),
        GameMove::Rock {},
        "e".to_string(),
        vec![],
        50,
    );
    assert_eq!(Err(ContractError::InvalidPayment {}), none.map(|_| ()));

    let two = try_bet_token(
        &mut random,
        "player".to_string(),
        GameMove::Rock {},
        "e".to_string(),
        vec![coin("token", 1), coin("earth", 1)],
        50,
    );
    assert_eq!(Err(ContractError::InvalidPayment {}), two.map(|_| ()));

    let zero = try_bet_token(
        &mut random,
        "player".to_string(),
        GameMove::Rock {},
        "e".to_string(),
        vec![coin("token", 0)],
        50,
    );
    assert_eq!(Err(ContractError::InvalidPayment {}), zero.map(|_| ()));

    let thin = try_bet_token(
        &mut random,
        "player".to_string(),
        GameMove::Rock {},
        "e".to_string(),
        vec![coin("token", 100)],
        50,
    );
    assert_eq!(Err(ContractError::InsufficientReserve {}), thin.map(|_| ()));

    // a rejected bet never advances the chain
    assert_eq!(before, random.entropy);
}

#[test]
fn withdraw_guards_owner_reserve_and_zero() {
    let state = State {
        owner: "creator".to_string(),
    };

    let stranger = try_withdraw(&state, "mallory".to_string(), coin("token", 5), 100);
    assert_eq!(Err(ContractError::Unauthorized {}), stranger.map(|_| ()));

    let beyond = try_withdraw(&state, "creator".to_string(), coin("token", 200), 100);
    assert_eq!(Err(ContractError::InsufficientReserve {}), beyond.map(|_| ()));

    let zero = try_withdraw(&state, "creator".to_string(), coin("token", 0), 100);
    assert_eq!(Err(ContractError::NoFunds {}), zero.map(|_| ()));

    let granted = try_withdraw(&state, "creator".to_string(), coin("token", 75), 100).unwrap();
    assert_eq!(1, granted.messages.len());
    assert_eq!("creator", granted.messages[0].to_address);
    assert_eq!(75, granted.messages[0].amount);
    assert_eq!("token", granted.messages[0].denom);
    assert_eq!("action", granted.attributes[0].key);
    assert_eq!("withdraw", granted.attributes[0].value);
    assert_eq!("amount", granted.attributes[1].key);
    assert_eq!("75", granted.attributes[1].value);
    assert_eq!("denom", granted.attributes[2].key);
    assert_eq!("token", granted.attributes[2].value);
}

#[test]
fn validate_sent_funds_requires_one_positive_coin() {
    assert!(matches!(
        validate_sent_funds(vec![]),
        Err(ContractError::InvalidPayment {})
    ));
    assert!(matches!(
        validate_sent_funds(vec![coin("a", 1), coin("b", 2)]),
        Err(ContractError::InvalidPayment {})
    ));
    assert!(matches!(
        validate_sent_funds(vec![coin("a", 0)]),
        Err(ContractError::InvalidPayment {})
    ));
    let ok = validate_sent_funds(vec![coin("token", 9)]).unwrap();
    assert_eq!("token".to_string(), ok.denom);
    assert_eq!(9, ok.amount);
}

#[test]
fn validate_balance_compares_reserve() {
    assert_eq!(Ok(true), validate_balance(10, 10));
    assert_eq!(Ok(true), validate_balance(11, 10));
    assert_eq!(
        Err(ContractError::InsufficientReserve {}),
        validate_balance(9, 10)
    );
}

#[test]
fn rand_move_maps_bytes_to_moves() {
    assert_eq!(GameMove::Rock {}, rand_move(&[0]));
    assert_eq!(GameMove::Paper {}, rand_move(&[1]));
    assert_eq!(GameMove::Scissors {}, rand_move(&[2]));
    assert_eq!(GameMove::Rock {}, rand_move(&[3, 200]));
    assert_eq!(GameMove::Scissors {}, rand_move(&[254]));
    assert_eq!(GameMove::Rock {}, rand_move(&[255]));
}

#[test]
fn move_and_result_labels() {
    assert_eq!("Rock", GameMove::Rock {}.label());
    assert_eq!("Paper", GameMove::Paper {}.label());
    assert_eq!("Scissors", GameMove::Scissors {}.label());
    assert_eq!("Host Wins!", GameResult::HostWins {}.label());
    assert_eq!("Opponent Wins!", GameResult::OpponentWins {}.label());
    assert_eq!("Game is Tie !", GameResult::Tie {}.label());
    assert_eq!("Contract Wins!", GameResult::ContractWins().label());
    assert_eq!("Player Wins!", GameResult::PlayerWins().label());
}

#[test]
fn sha_256_matches_known_vector() {
    let digest = jaken::utils::sha_256(b"");
    let expected: [u8; 32] = [
        0xe3, 0xb0, 0xc4, 0x42, 0x98, 0xfc, 0x1c, 0x14, 0x9a, 0xfb, 0xf4, 0xc8, 0x99, 0x6f, 0xb9,
        0x24, 0x27, 0xae, 0x41, 0xe4, 0x64, 0x9b, 0x93, 0x4c, 0xa4, 0x95, 0x99, 0x1b, 0x78, 0x52,
        0xb8, 0x55,
    ];
    assert_eq!(expected, digest);
}

#[test]
fn draw_is_deterministic_and_not_identity() {
    let a = jaken::utils::Prng::new_rand_bytes(b"seed", b"entropy");
    let b = jaken::utils::Prng::new_rand_bytes(b"seed", b"entropy");
    assert_eq!(a, b);
    assert_eq!(32, a.len());
    assert_ne!(b"seed".to_vec(), a);
    assert_eq!(reference_draw(b"seed", b"entropy"), a);
}

#[test]
fn prng_draws_successive_stream_blocks() {
    let mut prng = jaken::utils::Prng::new(b"s", b"e");
    let first = prng.rand_bytes();
    let second = prng.rand_bytes();

    let mut data = b"s".to_vec();
    data.extend_from_slice(b"e");
    let mut key = [0u8; 32];
    key.copy_from_slice(&Sha256::digest(&data));
    let mut rng = rand_chacha::ChaChaRng::from_seed(key);
    let mut expected_first = [0u8; 32];
    rng.fill_bytes(&mut expected_first);
    let mut expected_second = [0u8; 32];
    rng.fill_bytes(&mut expected_second);

    // the generator walks the keyed stream: each read hands out the next span
    assert_eq!(expected_first, first);
    assert_eq!(expected_second, second);
    assert_ne!(first, second);
}

#[test]
fn decimal_rendering_of_amounts() {
    assert_eq!("0", jaken::utils::u128_to_string(0));
    assert_eq!("10", jaken::utils::u128_to_string(10));
    assert_eq!(
        "340282366920938463463374607431768211455",
        jaken::utils::u128_to_string(u128::MAX)
    );
}

#[test]
fn invalid_identities_rejected_everywhere() {
    let mut games = Games::new();
    let respond = try_respond_to_game(
        &mut games,
        "bob".to_string(),
        "###".to_string(),
        false,
        GameMove::Rock {},
    );
    assert_eq!(Err(ContractError::InvalidIdentity {}), respond.map(|_| ()));
    let queried = query_result(&games, "###".to_string(), "bob".to_string(), false, true);
    assert_eq!(Err(ContractError::InvalidIdentity {}), queried);
}
