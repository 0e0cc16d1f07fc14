use ludo::commit::{convert, hash_state, InitializeGameStateCommit, PlayGameCommit};
use ludo::model::{Color, LudoGameState, Piece, PieceStatus, Play, PlayGameParams};
use ludo::players::initial_state;
use ludo::session::{is_playable_state, AttestationFailure, Game, GameError};

fn hex(bytes: &[u8]) -> String {
    bytes.iter().map(|b| format!("{:02x}", b)).collect()
}

fn after_first_six() -> LudoGameState {
    PlayGameParams::new(initial_state(), Play { current_player: 0, dice_roll: 6, piece_index: 0 })
        .process()
        .state
}

#[test]
fn starting_state_digest() {
    let digest = hash_state(&initial_state());
    assert_eq!(hex(&convert(&digest)), "7875210d29ddee15e95844bfcc477cead94d402f7967c252da2cb0c3611ce587");
}

#[test]
fn digest_after_first_six() {
    let digest = hash_state(&after_first_six());
    assert_eq!(hex(&convert(&digest)), "edae70f3f7ec63e610776dc4e879b9ff15814b3a3c0ae8cfbf15e03ac698b8c5");
}

#[test]
fn equal_states_have_equal_digests() {
    assert_eq!(hash_state(&initial_state()), hash_state(&initial_state().clone()));
    assert_ne!(hash_state(&initial_state()), hash_state(&after_first_six()));
}

#[test]
fn convert_lays_words_out_little_endian() {
    let words = [0x04030201u32, 0, 0xffffffff, 0x12345678, 1, 2, 3, 0x80000000];
    let bytes = convert(&words);
    assert_eq!(&bytes[0..4], &[1, 2, 3, 4]);
    assert_eq!(&bytes[8..12], &[0xff, 0xff, 0xff, 0xff]);
    assert_eq!(&bytes[12..16], &[0x78, 0x56, 0x34, 0x12]);
    assert_eq!(&bytes[28..32], &[0, 0, 0, 0x80]);
}

#[test]
fn init_commit_fields() {
    let state = initial_state();
    let commit = InitializeGameStateCommit::of(&state);
    assert_eq!(commit.current_player, 0);
    assert_eq!(commit.dice_roll, 0);
    assert!(commit.winners.is_empty());
    assert_eq!(commit.sixes, 0);
    assert_eq!(commit.state_hash, hash_state(&state));
}

#[test]
fn init_accepts_matching_commit_only() {
    let game = Game::new(initial_state());
    let good = InitializeGameStateCommit::of(&game.state);
    assert!(game.init(Ok(good)).is_ok());
    let mut bad = InitializeGameStateCommit::of(&game.state);
    bad.state_hash[0] ^= 1;
    assert_eq!(game.init(Ok(bad)).unwrap_err(), GameError::VerificationError);
    assert_eq!(game.init(Err(AttestationFailure::Proving)).unwrap_err(), GameError::ProvingError);
}

fn attest(game: &Game, play: &Play) -> (LudoGameState, PlayGameCommit) {
    let params = game.prepare_play(play).unwrap();
    let after = params.process().state;
    let commit = PlayGameCommit::of(&params, &after);
    (after, commit)
}

#[test]
fn play_commit_binds_old_state_new_state_and_move() {
    let game = Game::new(initial_state());
    let play = Play { current_player: 0, dice_roll: 6, piece_index: 0 };
    let (after, commit) = attest(&game, &play);
    assert_eq!(commit.old_state, hash_state(&initial_state()));
    assert_eq!(commit.new_state, hash_state(&after));
    assert_ne!(commit.old_state, commit.new_state);
    assert_eq!(commit.current_player, 0);
    assert_eq!(commit.dice_roll, 6);
    assert_eq!(commit.piece_index, 0);
}

#[test]
fn play_takes_attested_state() {
    let mut game = Game::new(initial_state());
    let play = Play { current_player: 0, dice_roll: 6, piece_index: 0 };
    let (after, commit) = attest(&game, &play);
    let r = game.play(&play, Ok((after, commit)));
    assert!(r.is_ok());
    assert_eq!(game.state.players[0].pieces[0], Piece { position: 0, status: PieceStatus::Active });
    let play2 = Play { current_player: 0, dice_roll: 2, piece_index: 0 };
    let (after2, commit2) = attest(&game, &play2);
    assert!(game.play(&play2, Ok((after2, commit2))).is_ok());
    assert_eq!(game.state.players[0].pieces[0], Piece { position: 2, status: PieceStatus::Active });
    assert_eq!(game.state.current_player, 1);
}

#[test]
fn play_keeps_state_on_failed_attestation() {
    let mut game = Game::new(initial_state());
    let play = Play { current_player: 0, dice_roll: 6, piece_index: 0 };
    assert_eq!(game.play(&play, Err(AttestationFailure::Proving)).unwrap_err(), GameError::ProvingError);
    assert_eq!(game.play(&play, Err(AttestationFailure::Verification)).unwrap_err(), GameError::VerificationError);
    assert_eq!(game.play(&play, Err(AttestationFailure::Decode)).unwrap_err(), GameError::DecodeError);
    let (after, mut commit) = attest(&game, &play);
    commit.dice_roll = 5;
    assert_eq!(game.play(&play, Ok((after, commit))).unwrap_err(), GameError::VerificationError);
    let (after, mut commit) = attest(&game, &play);
    commit.old_state[3] ^= 1;
    assert_eq!(game.play(&play, Ok((after, commit))).unwrap_err(), GameError::VerificationError);
    assert_eq!(hash_state(&game.state), hash_state(&initial_state()));
}

#[test]
fn prepare_play_rejects_bad_moves() {
    let game = Game::new(initial_state());
    let bad = [
        Play { current_player: 0, dice_roll: 0, piece_index: 0 },
        Play { current_player: 0, dice_roll: 7, piece_index: 0 },
        Play { current_player: 0, dice_roll: 3, piece_index: 4 },
        Play { current_player: 1, dice_roll: 3, piece_index: 0 },
    ];
    for play in bad.iter() {
        assert_eq!(game.prepare_play(play).unwrap_err(), GameError::InvalidMove);
    }
}

#[test]
fn prepare_play_refuses_a_finished_table() {
    let mut state = initial_state();
    state.winners = vec![1, 2, 3];
    let game = Game::new(state);
    let six = Play { current_player: 0, dice_roll: 6, piece_index: 0 };
    assert_eq!(game.prepare_play(&six).unwrap_err(), GameError::GameFinished);
    let three = Play { current_player: 0, dice_roll: 3, piece_index: 0 };
    assert!(game.prepare_play(&three).is_ok());
}

#[test]
fn winners_report_first_winner_color() {
    let mut state = initial_state();
    let game = Game::new(initial_state());
    assert_eq!(game.winner_color(), None);
    state.winners = vec![2, 0];
    let game = Game::new(state);
    assert_eq!(game.winner_color(), Some(Color::Blue));
    assert_eq!(game.verify_winners(Ok(Some(Color::Blue))), Ok(Some(Color::Blue)));
    assert_eq!(game.verify_winners(Ok(Some(Color::Red))), Err(GameError::VerificationError));
    assert_eq!(game.verify_winners(Err(AttestationFailure::Decode)), Err(GameError::DecodeError));
}

#[test]
fn playable_state_check() {
    assert!(is_playable_state(&initial_state()));
    let mut s = initial_state();
    s.players[1].pieces[0] = Piece { position: 3, status: PieceStatus::Home };
    assert!(!is_playable_state(&s));
    let mut s = initial_state();
    s.current_player = 4;
    assert!(!is_playable_state(&s));
    let mut s = initial_state();
    s.sixes = 3;
    assert!(!is_playable_state(&s));
    let mut s = initial_state();
    s.players[2].pieces[3] = Piece { position: 56, status: PieceStatus::Active };
    assert!(!is_playable_state(&s));
}

#[test]
fn test_game_initialization_and_play() {
    let mut game = Game::new(ludo::model::LudoGameState {
        players: ludo::players::get_players(),
        current_player: 0,
        dice_roll: 0,
        winners: vec![],
        sixes: 0,
    });
    let commit = game.init(Ok(InitializeGameStateCommit::of(&game.state))).unwrap();
    assert_eq!(commit.current_player, 0);

    let play1 = Play { current_player: 0, dice_roll: 6, piece_index: 0 };
    let (after1, commit1) = attest(&game, &play1);
    let commit1 = game.play(&play1, Ok((after1, commit1))).unwrap();
    assert_eq!(commit1.dice_roll, 6);

    let play2 = Play { current_player: 0, dice_roll: 2, piece_index: 0 };
    let (after2, commit2) = attest(&game, &play2);
    let commit2 = game.play(&play2, Ok((after2, commit2))).unwrap();
    assert_eq!(commit2.old_state, commit1.new_state);
    assert_eq!(game.state.players[0].pieces[0], Piece { position: 2, status: PieceStatus::Active });
    assert_eq!(game.state.winners, vec![0]);
}

#[test]
fn play_request_carries_the_move() {
    let request = ludo::session::PlayRequest {
        game_id: "g".to_string(),
        current_player: 2,
        dice_roll: 5,
        piece_index: 3,
    };
    assert_eq!(request.play(), Play { current_player: 2, dice_roll: 5, piece_index: 3 });
}

#[test]
fn play_refuses_out_of_range_moves_before_the_attestation() {
    let mut game = Game::new(initial_state());
    let good = Play { current_player: 0, dice_roll: 6, piece_index: 0 };
    let (after, commit) = attest(&game, &good);
    let bad = [
        Play { current_player: 0, dice_roll: 0, piece_index: 0 },
        Play { current_player: 0, dice_roll: 7, piece_index: 0 },
        Play { current_player: 0, dice_roll: 6, piece_index: 4 },
        Play { current_player: 1, dice_roll: 6, piece_index: 0 },
    ];
    for play in bad.iter() {
        let r = game.play(play, Ok((after.clone(), commit)));
        assert_eq!(r.unwrap_err(), GameError::InvalidMove);
        let r = game.play(play, Err(AttestationFailure::Proving));
        assert_eq!(r.unwrap_err(), GameError::InvalidMove);
        assert_eq!(hash_state(&game.state), hash_state(&initial_state()));
    }
}

#[test]
fn any_state_can_be_hashed() {
    let mut s = initial_state();
    s.sixes = 5;
    s.players[0].pieces[0] = Piece { position: 3, status: PieceStatus::Home };
    assert!(!is_playable_state(&s));
    assert_ne!(hash_state(&s), hash_state(&initial_state()));
}
