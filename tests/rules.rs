use ludo::model::{Color, LudoGameState, Piece, PieceStatus, Play, PlayGameParams};
use ludo::players::{get_players, initial_state, WIN};

fn active(position: i8) -> Piece {
    Piece::new(position, PieceStatus::Active)
}

fn home() -> Piece {
    Piece::new(-1, PieceStatus::Home)
}

fn won(position: i8) -> Piece {
    Piece::new(position, PieceStatus::Win)
}

#[test]
fn starting_players_are_four_seats_at_home() {
    let players = get_players();
    assert_eq!(players.len(), 4);
    let colors = [Color::Red, Color::Green, Color::Blue, Color::Yellow];
    for (i, p) in players.iter().enumerate() {
        assert_eq!(p.name, format!("Player {}", i + 1));
        assert_eq!(p.color, colors[i]);
        assert_eq!(p.path.len(), 57);
        assert_eq!(p.path[56], WIN);
        assert!(p.pieces.iter().all(|q| *q == home()));
    }
    assert_eq!(players[0].path[0], 19);
    assert_eq!(players[1].path[0], 5);
    assert_eq!(players[2].path[0], 66);
    assert_eq!(players[3].path[0], 52);
}

#[test]
fn scenario_first_six_enters_a_piece() {
    let mut state = initial_state();
    let ended = state.roll_dice(6);
    assert!(!ended);
    assert_eq!(state.sixes, 1);
    assert_eq!(state.winners, vec![0]);
    assert_eq!(state.current_player, 0);
    state.move_piece(0);
    assert_eq!(state.players[0].pieces[0], active(0));
    assert_eq!(state.current_player, 0);
    assert_eq!(state.sixes, 1);
}

#[test]
fn scenario_first_six_through_process() {
    let params = PlayGameParams::new(initial_state(), Play { current_player: 0, dice_roll: 6, piece_index: 0 });
    let result = params.process();
    assert_eq!(result.state.sixes, 1);
    assert_eq!(result.state.winners, vec![0]);
    assert_eq!(result.state.players[0].pieces[0], active(0));
    assert_eq!(result.next_player, 0);
    assert_eq!(result.state.dice_roll, 6);
    assert_eq!(params.state.players[0].pieces[0], home());
}

#[test]
fn scenario_no_active_piece_passes_turn() {
    let mut state = initial_state();
    let ended = state.roll_dice(3);
    assert!(ended);
    assert_eq!(state.current_player, 1);
    assert_eq!(state.sixes, 0);
    assert_eq!(state.dice_roll, 3);
    assert!(state.winners.is_empty());
}

#[test]
fn scenario_single_active_piece_moves_itself() {
    let mut state = initial_state();
    state.players[0].pieces[0] = active(10);
    let ended = state.roll_dice(4);
    assert!(ended);
    assert_eq!(state.players[0].pieces[0], active(14));
    assert_eq!(state.current_player, 1);
}

#[test]
fn single_active_piece_need_not_be_the_first() {
    let mut state = initial_state();
    state.players[0].pieces[2] = active(10);
    assert!(state.roll_dice(4));
    assert_eq!(state.players[0].pieces[2], active(14));
    assert_eq!(state.players[0].pieces[0], home());
    assert_eq!(state.current_player, 1);
}

fn path_index_of(state: &LudoGameState, seat: usize, cell: u8) -> i8 {
    state.players[seat].path.iter().position(|c| *c == cell).unwrap() as i8
}

#[test]
fn scenario_capture_sends_opponent_home() {
    let mut state = initial_state();
    let red_cell = state.players[0].path[12];
    let blue_index = path_index_of(&state, 2, red_cell);
    state.players[2].pieces[1] = active(blue_index);
    state.players[0].pieces[0] = active(10);
    state.players[0].pieces[3] = active(30);
    let ended = state.roll_dice(2);
    assert!(!ended);
    state.move_piece(0);
    assert_eq!(state.players[0].pieces[0], active(12));
    assert_eq!(state.players[2].pieces[1], Piece { position: -1, status: PieceStatus::Home });
    assert_eq!(state.current_player, 0);
}

#[test]
fn capture_takes_only_the_first_piece_on_the_cell() {
    let mut state = initial_state();
    let cell = state.players[0].path[5];
    let green_index = path_index_of(&state, 1, cell);
    let blue_index = path_index_of(&state, 2, cell);
    state.players[1].pieces[2] = active(green_index);
    state.players[2].pieces[0] = active(blue_index);
    state.players[0].pieces[0] = active(2);
    state.players[0].pieces[1] = active(40);
    assert!(!state.roll_dice(3));
    state.move_piece(0);
    assert_eq!(state.players[1].pieces[2], home());
    assert_eq!(state.players[2].pieces[0], active(blue_index));
}

#[test]
fn landing_on_an_empty_cell_passes_the_turn() {
    let mut state = initial_state();
    state.players[0].pieces[0] = active(2);
    state.players[0].pieces[1] = active(40);
    state.players[1].pieces[0] = active(3);
    assert!(!state.roll_dice(3));
    state.move_piece(0);
    assert_eq!(state.players[0].pieces[0], active(5));
    assert_eq!(state.players[1].pieces[0], active(3));
    assert_eq!(state.current_player, 1);
}

#[test]
fn third_six_passes_the_turn() {
    let mut state = initial_state();
    state.players[0].pieces[0] = active(3);
    state.sixes = 2;
    let ended = state.roll_dice(6);
    assert!(ended);
    assert_eq!(state.sixes, 0);
    assert_eq!(state.current_player, 1);
    assert_eq!(state.winners, vec![0]);
    assert_eq!(state.players[0].pieces[0], active(3));
}

#[test]
fn second_six_grows_the_run() {
    let mut state = initial_state();
    state.sixes = 1;
    state.players[0].pieces[0] = active(3);
    state.players[0].pieces[1] = active(8);
    assert!(!state.roll_dice(6));
    assert_eq!(state.sixes, 2);
    assert_eq!(state.winners, vec![0]);
    assert_eq!(state.current_player, 0);
}

#[test]
fn next_turn_skips_winners() {
    let mut state = initial_state();
    state.current_player = 3;
    state.winners = vec![0, 1];
    assert_eq!(state.get_next_turn(), 2);
    state.current_player = 1;
    state.winners = vec![2, 3];
    assert_eq!(state.get_next_turn(), 0);
    state.winners = vec![0, 2, 3];
    assert_eq!(state.get_next_turn(), 1);
}

#[test]
fn exact_finish_wins_the_piece() {
    let mut state = initial_state();
    state.players[0].pieces[0] = active(53);
    state.players[0].pieces[1] = active(20);
    state.dice_roll = 3;
    state.move_piece(0);
    assert_eq!(state.players[0].pieces[0], won(56));
    assert!(state.winners.is_empty());
}

#[test]
fn last_piece_home_adds_the_player_to_winners() {
    let mut state = initial_state();
    state.players[0].pieces = [won(56), won(56), won(56), active(54)];
    state.dice_roll = 2;
    state.move_piece(3);
    assert_eq!(state.players[0].pieces[3], won(56));
    assert_eq!(state.winners, vec![0]);
    assert_eq!(state.current_player, 0);
}

#[test]
fn overshooting_move_is_dropped() {
    let mut state = initial_state();
    state.players[0].pieces[0] = active(53);
    state.players[0].pieces[1] = active(20);
    state.dice_roll = 5;
    state.move_piece(0);
    assert_eq!(state.players[0].pieces[0], active(53));
    assert_eq!(state.current_player, 0);
}

#[test]
fn home_piece_stays_without_a_six() {
    let mut state = initial_state();
    state.dice_roll = 5;
    state.move_piece(1);
    assert_eq!(state.players[0].pieces[1], home());
    assert_eq!(state.current_player, 0);
}

#[test]
fn six_that_keeps_the_turn_needs_no_open_seat() {
    let mut state = initial_state();
    state.winners = vec![1, 2, 3];
    assert!(!state.roll_dice(6));
    assert_eq!(state.winners, vec![1, 2, 3, 0]);
    state.move_piece(0);
    assert_eq!(state.players[0].pieces[0], active(0));
    assert_eq!(state.current_player, 0);
}
