//! The game's data: pieces, players and the whole game state, with their
//! mathematical views and well-formedness.

use vstd::prelude::*;

verus! {

/// Where a piece stands in its life cycle.
#[derive(Clone, Copy, Debug, PartialEq, Eq, Structural)]
pub enum PieceStatus {
    /// In the starting yard, not on the board.
    Home,
    /// On the board, somewhere along its owner's path.
    Active,
    /// Arrived at the last cell of its owner's path.
    Win,
}

/// The four seat colors.
#[derive(Clone, Copy, Debug, PartialEq, Eq, Structural)]
pub enum Color {
    Red,
    Green,
    Blue,
    Yellow,
}

/// One piece: an index into its owner's path (`-1` while at home) and a status.
#[derive(Clone, Copy, Debug, PartialEq, Eq, Structural)]
pub struct Piece {
    pub position: i8,
    pub status: PieceStatus,
}

impl Piece {
    pub fn new(position: i8, status: PieceStatus) -> (r: Self)
        ensures
            r == (Piece { position, status }),
    {
        Piece { position, status }
    }
}

/// The piece every player starts with four of.
pub open spec fn home_piece() -> Piece {
    Piece { position: -1i8, status: PieceStatus::Home }
}

/// A seat at the table: its pieces and the color-specific projection of the
/// shared board that its pieces walk along.
#[derive(Debug)]
pub struct Player {
    pub name: String,
    pub color: Color,
    pub pieces: [Piece; 4],
    pub path: Vec<u8>,
}

pub struct PlayerView {
    pub name: Seq<char>,
    pub color: Color,
    pub pieces: Seq<Piece>,
    pub path: Seq<u8>,
}

impl View for Player {
    type V = PlayerView;

    open spec fn view(&self) -> PlayerView {
        PlayerView { name: self.name@, color: self.color, pieces: self.pieces@, path: self.path@ }
    }
}

impl Player {
    pub fn new(name: String, color: Color, pieces: [Piece; 4], path: Vec<u8>) -> (r: Self)
        ensures
            r.name@ == name@,
            r.color == color,
            r.pieces == pieces,
            r.path@ == path@,
    {
        Player { name, color, pieces, path }
    }
}

impl Clone for Player {
    fn clone(&self) -> (r: Self)
        ensures
            r@ == self@,
    {
        Player {
            name: self.name.clone(),
            color: self.color,
            pieces: self.pieces,
            path: self.path.clone(),
        }
    }
}

/// The longest path a player may have: positions are `i8` values, and a
/// piece two cells short of the end plus a roll of six must still fit.
pub const MAX_PATH_LEN: usize = 120;

/// A piece is consistent with a path of `len` cells: `-1` exactly when at
/// home, an inner cell while active, the last cell once it has won.
pub open spec fn piece_wf(p: Piece, len: int) -> bool {
    match p.status {
        PieceStatus::Home => p.position == -1,
        PieceStatus::Active => 0 <= p.position <= len - 2,
        PieceStatus::Win => p.position == len - 1,
    }
}

impl PlayerView {
    pub open spec fn wf(self) -> bool {
        &&& 2 <= self.path.len() <= MAX_PATH_LEN
        &&& self.pieces.len() == 4
        &&& forall|j: int| 0 <= j < 4 ==> piece_wf(#[trigger] self.pieces[j], self.path.len() as int)
    }
}

/// The whole game between two moves.
#[derive(Debug)]
pub struct LudoGameState {
    pub players: Vec<Player>,
    pub current_player: usize,
    pub dice_roll: u8,
    pub winners: Vec<usize>,
    pub sixes: u8,
}

pub struct GameView {
    pub players: Seq<PlayerView>,
    pub current_player: usize,
    pub dice_roll: u8,
    pub winners: Seq<usize>,
    pub sixes: u8,
}

impl View for LudoGameState {
    type V = GameView;

    open spec fn view(&self) -> GameView {
        GameView {
            players: self.players@.map_values(|p: Player| p@),
            current_player: self.current_player,
            dice_roll: self.dice_roll,
            winners: self.winners@,
            sixes: self.sixes,
        }
    }
}

impl GameView {
    /// Every player is well formed, the current player is a seat, the last
    /// roll is a die value, and the run of sixes has not reached three (a
    /// third six always passes the turn and clears the count).
    pub open spec fn wf(self) -> bool {
        &&& 0 < self.players.len() <= u32::MAX
        &&& self.current_player < self.players.len()
        &&& self.dice_roll <= 6
        &&& self.sixes < 3
        &&& forall|i: int| 0 <= i < self.players.len() ==> (#[trigger] self.players[i]).wf()
    }

    pub open spec fn current(self) -> PlayerView {
        self.players[self.current_player as int]
    }
}

impl LudoGameState {
    pub fn clone_players(players: &Vec<Player>) -> (r: Vec<Player>)
        ensures
            r@.map_values(|p: Player| p@) == players@.map_values(|p: Player| p@),
    {
        let mut r: Vec<Player> = Vec::new();
        let mut i: usize = 0;
        while i < players.len()
            invariant
                i <= players@.len(),
                r@.len() == i,
                forall|k: int| 0 <= k < i ==> (#[trigger] r@[k])@ == players@[k]@,
            decreases players@.len() - i,
        {
            r.push(players[i].clone());
            i = i + 1;
        }
        assert(r@.map_values(|p: Player| p@) =~= players@.map_values(|p: Player| p@));
        r
    }
}

impl Clone for LudoGameState {
    fn clone(&self) -> (r: Self)
        ensures
            r@ == self@,
    {
        LudoGameState {
            players: LudoGameState::clone_players(&self.players),
            current_player: self.current_player,
            dice_roll: self.dice_roll,
            winners: self.winners.clone(),
            sixes: self.sixes,
        }
    }
}

/// A move as a player submits it: whose it claims to be, the die, and the
/// piece chosen.
#[derive(Clone, Copy, Debug, PartialEq, Eq, Structural)]
pub struct Play {
    pub current_player: usize,
    pub dice_roll: u8,
    pub piece_index: u8,
}

/// The input of one transition: the state before it and the move.
#[derive(Debug)]
pub struct PlayGameParams {
    pub state: LudoGameState,
    pub play: Play,
}

/// The output of one transition: the state after it and whose turn it is.
#[derive(Debug)]
pub struct PlayGameResult {
    pub state: LudoGameState,
    pub next_player: usize,
}

} // verus!
