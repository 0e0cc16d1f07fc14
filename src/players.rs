//! The four seats of a new game and the paths their pieces walk.

use vstd::prelude::*;
use crate::model::{home_piece, Color, GameView, LudoGameState, Piece, PieceStatus, Player, PlayerView};

verus! {

/// The board cell that every path ends on: a piece there has won.
pub const WIN: u8 = 100;

/// The cells that red pieces walk, from the start to the finish.
pub open spec fn red_path() -> Seq<u8> {
    seq![
        19, 20, 21, 22, 23, 15, 12, 9, 6, 3, 0, 1, 2, 5, 8, 11, 14, 17, 24, 25, 26, 27, 28, 29,
        41, 53, 52, 51, 50, 49, 48, 56, 59, 62, 65, 68, 71, 70, 69, 66, 63, 60, 57, 54, 47, 46,
        45, 44, 43, 42, 30, 31, 32, 33, 34, 35, WIN
    ]
}

fn red_path_vec() -> (r: Vec<u8>)
    ensures
        r@ == red_path(),
{
    let r = vec![
        19, 20, 21, 22, 23, 15, 12, 9, 6, 3, 0, 1, 2, 5, 8, 11, 14, 17, 24, 25, 26, 27, 28, 29,
        41, 53, 52, 51, 50, 49, 48, 56, 59, 62, 65, 68, 71, 70, 69, 66, 63, 60, 57, 54, 47, 46,
        45, 44, 43, 42, 30, 31, 32, 33, 34, 35, WIN
    ];
    proof {
        assert(r@ =~= red_path());
    }
    r
}

/// The cells that green pieces walk, from the start to the finish.
pub open spec fn green_path() -> Seq<u8> {
    seq![
        5, 8, 11, 14, 17, 24, 25, 26, 27, 28, 29, 41, 53, 52, 51, 50, 49, 48, 56, 59, 62, 65,
        68, 71, 70, 69, 66, 63, 60, 57, 54, 47, 46, 45, 44, 43, 42, 30, 18, 19, 20, 21, 22, 23,
        15, 12, 9, 6, 3, 0, 1, 4, 7, 10, 13, 16, WIN
    ]
}

fn green_path_vec() -> (r: Vec<u8>)
    ensures
        r@ == green_path(),
{
    let r = vec![
        5, 8, 11, 14, 17, 24, 25, 26, 27, 28, 29, 41, 53, 52, 51, 50, 49, 48, 56, 59, 62, 65,
        68, 71, 70, 69, 66, 63, 60, 57, 54, 47, 46, 45, 44, 43, 42, 30, 18, 19, 20, 21, 22, 23,
        15, 12, 9, 6, 3, 0, 1, 4, 7, 10, 13, 16, WIN
    ];
    proof {
        assert(r@ =~= green_path());
    }
    r
}

/// The cells that blue pieces walk, from the start to the finish.
pub open spec fn blue_path() -> Seq<u8> {
    seq![
        66, 63, 60, 57, 54, 47, 46, 45, 44, 43, 42, 30, 18, 19, 20, 21, 22, 23, 15, 12, 9, 6,
        3, 0, 1, 2, 5, 8, 11, 14, 17, 24, 25, 26, 27, 28, 29, 41, 53, 52, 51, 50, 49, 48, 56,
        59, 62, 65, 68, 71, 70, 67, 64, 61, 58, 55, WIN
    ]
}

fn blue_path_vec() -> (r: Vec<u8>)
    ensures
        r@ == blue_path(),
{
    let r = vec![
        66, 63, 60, 57, 54, 47, 46, 45, 44, 43, 42, 30, 18, 19, 20, 21, 22, 23, 15, 12, 9, 6,
        3, 0, 1, 2, 5, 8, 11, 14, 17, 24, 25, 26, 27, 28, 29, 41, 53, 52, 51, 50, 49, 48, 56,
        59, 62, 65, 68, 71, 70, 67, 64, 61, 58, 55, WIN
    ];
    proof {
        assert(r@ =~= blue_path());
    }
    r
}

/// The cells that yellow pieces walk, from the start to the finish.
pub open spec fn yellow_path() -> Seq<u8> {
    seq![
        52, 51, 50, 49, 48, 56, 59, 62, 65, 68, 71, 70, 69, 66, 63, 60, 57, 54, 47, 46, 45, 44,
        43, 42, 30, 18, 19, 20, 21, 22, 23, 15, 12, 9, 6, 3, 0, 1, 2, 5, 8, 11, 14, 17, 24, 25,
        26, 27, 28, 29, 41, 40, 39, 38, 37, 36, WIN
    ]
}

fn yellow_path_vec() -> (r: Vec<u8>)
    ensures
        r@ == yellow_path(),
{
    let r = vec![
        52, 51, 50, 49, 48, 56, 59, 62, 65, 68, 71, 70, 69, 66, 63, 60, 57, 54, 47, 46, 45, 44,
        43, 42, 30, 18, 19, 20, 21, 22, 23, 15, 12, 9, 6, 3, 0, 1, 2, 5, 8, 11, 14, 17, 24, 25,
        26, 27, 28, 29, 41, 40, 39, 38, 37, 36, WIN
    ];
    proof {
        assert(r@ =~= yellow_path());
    }
    r
}

fn home_pieces() -> (r: [Piece; 4])
    ensures
        r@ == seq![home_piece(), home_piece(), home_piece(), home_piece()],
{
    let home = Piece { position: -1, status: PieceStatus::Home };
    let r = [home, home, home, home];
    proof {
        assert(r@ =~= seq![home_piece(), home_piece(), home_piece(), home_piece()]);
    }
    r
}

/// A seat of a new game.
pub open spec fn starting_player(name: Seq<char>, color: Color, path: Seq<u8>) -> PlayerView {
    PlayerView {
        name,
        color,
        pieces: seq![home_piece(), home_piece(), home_piece(), home_piece()],
        path,
    }
}

/// The four seats in playing order, every piece at home.
pub open spec fn starting_players() -> Seq<PlayerView> {
    seq![
        starting_player("Player 1"@, Color::Red, red_path()),
        starting_player("Player 2"@, Color::Green, green_path()),
        starting_player("Player 3"@, Color::Blue, blue_path()),
        starting_player("Player 4"@, Color::Yellow, yellow_path()),
    ]
}

/// The state a new game starts in: the first seat to play, no roll yet, no
/// winners, no sixes.
pub open spec fn starting_state() -> GameView {
    GameView {
        players: starting_players(),
        current_player: 0,
        dice_roll: 0,
        winners: Seq::empty(),
        sixes: 0,
    }
}

/// The four seats of a new game: red, green, blue and yellow, every piece at home.
pub fn get_players() -> (r: Vec<Player>)
    ensures
        r@.map_values(|p: Player| p@) == starting_players(),
{
    let r = vec![
        Player::new("Player 1".to_string(), Color::Red, home_pieces(), red_path_vec()),
        Player::new("Player 2".to_string(), Color::Green, home_pieces(), green_path_vec()),
        Player::new("Player 3".to_string(), Color::Blue, home_pieces(), blue_path_vec()),
        Player::new("Player 4".to_string(), Color::Yellow, home_pieces(), yellow_path_vec()),
    ];
    proof {
        assert(r@.map_values(|p: Player| p@) =~= starting_players());
    }
    r
}

/// A new game on the four starting seats.
pub fn initial_state() -> (r: LudoGameState)
    ensures
        r@ == starting_state(),
        r@.wf(),
{
    let r = LudoGameState {
        players: get_players(),
        current_player: 0,
        dice_roll: 0,
        winners: Vec::new(),
        sixes: 0,
    };
    proof {
        assert(r@.winners =~= Seq::<usize>::empty());
        lemma_starting_state_wf();
    }
    r
}

/// A new game is well formed.
pub proof fn lemma_starting_state_wf()
    ensures
        starting_state().wf(),
{
    let g = starting_state();
    assert(red_path().len() == 57);
    assert(green_path().len() == 57);
    assert(blue_path().len() == 57);
    assert(yellow_path().len() == 57);
    assert forall|i: int| 0 <= i < g.players.len() implies (#[trigger] g.players[i]).wf() by {
        assert(g.players[i].pieces =~= seq![home_piece(), home_piece(), home_piece(), home_piece()]);
    }
}

} // verus!
