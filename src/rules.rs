//! The transition rules: rolling the die, choosing the next seat, moving a
//! piece and resolving captures.

use vstd::prelude::*;
use crate::model::{home_piece, GameView, LudoGameState, Piece, PieceStatus, PlayerView};
use crate::model::{Play, PlayGameParams, PlayGameResult};

verus! {

/// The seat `k` places after `cur` around a table of `n` seats, for `1 <= k <= n`.
pub open spec fn seat_after(cur: int, k: int, n: int) -> int {
    if cur + k < n {
        cur + k
    } else {
        cur + k - n
    }
}

/// Walking on from the `k`-th seat after `cur`, the first seat that holds no
/// winner; `cur` when the walk runs past the whole table.
pub open spec fn open_seat_from(winners: Seq<usize>, n: int, cur: int, k: int) -> int
    decreases n + 1 - k,
{
    if k < 1 || k > n {
        cur
    } else if !winners.contains(seat_after(cur, k, n) as usize) {
        seat_after(cur, k, n)
    } else {
        open_seat_from(winners, n, cur, k + 1)
    }
}

/// Some seat of a table of `n` holds no winner.
pub open spec fn has_open_seat(winners: Seq<usize>, n: int) -> bool {
    exists|s: int| 0 <= s < n && !winners.contains(#[trigger] (s as usize))
}

/// The seat whose turn comes after the current player's: the first one,
/// going round the table, that is not among the winners.
pub open spec fn next_turn(g: GameView) -> usize {
    open_seat_from(g.winners, g.players.len() as int, g.current_player as int, 1) as usize
}

/// The game with piece `j` of seat `i` replaced by `p`.
pub open spec fn with_piece(g: GameView, i: int, j: int, p: Piece) -> GameView {
    GameView {
        players: g.players.update(i, PlayerView { pieces: g.players[i].pieces.update(j, p), ..g.players[i] }),
        ..g
    }
}

/// The turn goes to the next seat, and the run of sixes starts over.
pub open spec fn pass_turn(g: GameView) -> GameView {
    GameView { current_player: next_turn(g), sixes: 0, ..g }
}

/// Piece `j` of seat `i` is an opponent's piece on the board standing on `cell`.
pub open spec fn captures(g: GameView, cell: u8, i: int, j: int) -> bool {
    let p = g.players[i];
    &&& i != g.current_player
    &&& p.pieces[j].status == PieceStatus::Active
    &&& p.path[p.pieces[j].position as int] == cell
}

/// In seat order and then piece order, starting at piece `j` of seat `i`,
/// the first piece that landing on `cell` captures.
pub open spec fn first_capture_from(g: GameView, cell: u8, i: int, j: int) -> Option<(int, int)>
    decreases g.players.len() - i, 4 - j,
{
    if i < 0 || i >= g.players.len() || j < 0 {
        None
    } else if j >= 4 {
        first_capture_from(g, cell, i + 1, 0)
    } else if captures(g, cell, i, j) {
        Some((i, j))
    } else {
        first_capture_from(g, cell, i, j + 1)
    }
}

/// The current player has landed on path index `pos`: the first opponent's
/// piece found on that board cell goes home; when none is, the turn passes
/// unless a six (short of the third) grants another move.
pub open spec fn collide(g: GameView, pos: int) -> GameView {
    let cell = g.current().path[pos];
    match first_capture_from(g, cell, 0, 0) {
        Some(c) => with_piece(g, c.0, c.1, home_piece()),
        None => if g.dice_roll != 6 || g.sixes >= 3 {
            pass_turn(g)
        } else {
            g
        },
    }
}

/// Every piece of the player has won.
pub open spec fn all_won(p: PlayerView) -> bool {
    &&& p.pieces[0].status == PieceStatus::Win
    &&& p.pieces[1].status == PieceStatus::Win
    &&& p.pieces[2].status == PieceStatus::Win
    &&& p.pieces[3].status == PieceStatus::Win
}

/// The current player moves piece `idx` by the last roll. An active piece
/// that reaches the last cell exactly wins (and the player joins the winners
/// once all four have), one that stops short moves and may capture, one that
/// would overshoot stays put. A piece at home enters the board on a six.
pub open spec fn moved(g: GameView, idx: int) -> GameView {
    let cur = g.current_player as int;
    let p = g.current();
    let pc = p.pieces[idx];
    if pc.status == PieceStatus::Active {
        let np = pc.position + g.dice_roll;
        if np == p.path.len() - 1 {
            let g1 = with_piece(g, cur, idx, Piece { position: np as i8, status: PieceStatus::Win });
            if all_won(g1.current()) {
                GameView { winners: g1.winners.push(g.current_player), ..g1 }
            } else {
                g1
            }
        } else if np < p.path.len() - 1 {
            collide(with_piece(g, cur, idx, Piece { position: np as i8, status: PieceStatus::Active }), np)
        } else {
            g
        }
    } else if pc.status == PieceStatus::Home && g.dice_roll == 6 {
        collide(with_piece(g, cur, idx, Piece { position: 0, status: PieceStatus::Active }), 0)
    } else {
        g
    }
}

pub open spec fn is_active(p: Piece) -> bool {
    p.status == PieceStatus::Active
}

/// How many of the player's pieces are on the board.
pub open spec fn active_count(p: PlayerView) -> int {
    (if is_active(p.pieces[0]) { 1int } else { 0 }) + (if is_active(p.pieces[1]) { 1int } else { 0 })
        + (if is_active(p.pieces[2]) { 1int } else { 0 }) + (if is_active(p.pieces[3]) { 1int } else { 0 })
}

/// The index of the player's first piece on the board (the last index when none is).
pub open spec fn first_active(p: PlayerView) -> int {
    if is_active(p.pieces[0]) {
        0
    } else if is_active(p.pieces[1]) {
        1
    } else if is_active(p.pieces[2]) {
        2
    } else {
        3
    }
}

/// The die shows `d`: it is recorded, and a six adds the current player to
/// the winners and counts one more six in the run.
pub open spec fn after_six(g: GameView, d: u8) -> GameView {
    if d == 6 {
        GameView {
            dice_roll: d,
            winners: g.winners.push(g.current_player),
            sixes: (g.sixes + 1) as u8,
            ..g
        }
    } else {
        GameView { dice_roll: d, ..g }
    }
}

/// The roll itself ends the turn: with no piece on the board and no six,
/// on the third six, or with one piece on the board and no six (that piece
/// then moves on its own).
pub open spec fn roll_ends_turn(g: GameView, d: u8) -> bool {
    let g2 = after_six(g, d);
    let n = active_count(g2.current());
    (n == 0 && d != 6) || g2.sixes >= 3 || (n == 1 && d != 6)
}

/// The game after rolling `d`, before any piece is chosen.
pub open spec fn rolled(g: GameView, d: u8) -> GameView {
    let g2 = after_six(g, d);
    let n = active_count(g2.current());
    if (n == 0 && d != 6) || g2.sixes >= 3 {
        pass_turn(g2)
    } else if n == 1 && d != 6 {
        moved(g2, first_active(g2.current()))
    } else {
        g2
    }
}

/// The seats after rolling `d` admit a next turn.
pub open spec fn roll_allowed(g: GameView, d: u8) -> bool {
    has_open_seat(after_six(g, d).winners, g.players.len() as int)
}

/// Landing on path index `pos` hands the turn on: nothing is captured and no
/// six (short of the third) grants another move.
pub open spec fn collide_passes(g: GameView, pos: int) -> bool {
    &&& first_capture_from(g, g.current().path[pos], 0, 0) is None
    &&& (g.dice_roll != 6 || g.sixes >= 3)
}

/// Moving piece `idx` by the last roll hands the turn on.
pub open spec fn move_passes(g: GameView, idx: int) -> bool {
    let cur = g.current_player as int;
    let p = g.current();
    let pc = p.pieces[idx];
    if pc.status == PieceStatus::Active {
        let np = pc.position + g.dice_roll;
        if np < p.path.len() - 1 {
            collide_passes(with_piece(g, cur, idx, Piece { position: np as i8, status: PieceStatus::Active }), np)
        } else {
            false
        }
    } else if pc.status == PieceStatus::Home && g.dice_roll == 6 {
        collide_passes(with_piece(g, cur, idx, Piece { position: 0, status: PieceStatus::Active }), 0)
    } else {
        false
    }
}

/// Rolling `d` hands the turn on, before any piece is chosen.
pub open spec fn roll_passes(g: GameView, d: u8) -> bool {
    let g2 = after_six(g, d);
    let n = active_count(g2.current());
    if (n == 0 && d != 6) || g2.sixes >= 3 {
        true
    } else if n == 1 && d != 6 {
        move_passes(g2, first_active(g2.current()))
    } else {
        false
    }
}

/// Playing `play` hands the turn on.
pub open spec fn play_passes(g: GameView, play: Play) -> bool {
    if roll_ends_turn(g, play.dice_roll) {
        roll_passes(g, play.dice_roll)
    } else {
        move_passes(after_six(g, play.dice_roll), play.piece_index as int)
    }
}

proof fn lemma_with_piece_wf(g: GameView, i: int, j: int, p: Piece)
    requires
        g.wf(),
        0 <= i < g.players.len(),
        0 <= j < 4,
        crate::model::piece_wf(p, g.players[i].path.len() as int),
    ensures
        with_piece(g, i, j, p).wf(),
        with_piece(g, i, j, p).players.len() == g.players.len(),
        with_piece(g, i, j, p).players[i].path == g.players[i].path,
{
    let h = with_piece(g, i, j, p);
    assert forall|k: int| 0 <= k < h.players.len() implies (#[trigger] h.players[k]).wf() by {
        assert(g.players[k].wf());
        if k == i {
            assert forall|m: int| 0 <= m < 4 implies crate::model::piece_wf(
                #[trigger] h.players[k].pieces[m],
                h.players[k].path.len() as int,
            ) by {
                assert(crate::model::piece_wf(g.players[k].pieces[m], g.players[k].path.len() as int));
            }
        }
    }
}

proof fn lemma_pass_turn_wf(g: GameView)
    requires
        g.wf(),
        has_open_seat(g.winners, g.players.len() as int),
    ensures
        pass_turn(g).wf(),
{
    lemma_next_turn_is_open_seat(g);
}

proof fn lemma_collide_wf(g: GameView, pos: int)
    requires
        g.wf(),
        0 <= pos < g.current().path.len(),
        collide_passes(g, pos) ==> has_open_seat(g.winners, g.players.len() as int),
    ensures
        collide(g, pos).wf(),
{
    let cell = g.current().path[pos];
    lemma_first_capture_sound(g, cell, 0, 0);
    match first_capture_from(g, cell, 0, 0) {
        Some(c) => lemma_with_piece_wf(g, c.0, c.1, home_piece()),
        None => if g.dice_roll != 6 || g.sixes >= 3 {
            lemma_pass_turn_wf(g);
        },
    }
}

proof fn lemma_piece_wf(g: GameView, i: int, j: int)
    requires
        g.wf(),
        0 <= i < g.players.len(),
        0 <= j < 4,
    ensures
        crate::model::piece_wf(g.players[i].pieces[j], g.players[i].path.len() as int),
{
    assert(g.players[i].wf());
}

proof fn lemma_open_seat_from(winners: Seq<usize>, n: int, cur: int, k: int)
    requires
        0 <= cur < n,
        1 <= k,
        has_open_seat(winners, n),
        forall|k2: int| 1 <= k2 < k ==> winners.contains(#[trigger] seat_after(cur, k2, n) as usize),
    ensures
        0 <= open_seat_from(winners, n, cur, k) < n,
        !winners.contains(open_seat_from(winners, n, cur, k) as usize),
    decreases n + 1 - k,
{
    if k > n {
        let s = choose|s: int| 0 <= s < n && !winners.contains(#[trigger] (s as usize));
        let k2 = if s > cur { s - cur } else { n - cur + s };
        assert(seat_after(cur, k2, n) == s);
    } else if winners.contains(seat_after(cur, k, n) as usize) {
        lemma_open_seat_from(winners, n, cur, k + 1);
    }
}

/// The next turn always goes to a seat of the table that holds no winner,
/// provided such a seat exists.
pub proof fn lemma_next_turn_is_open_seat(g: GameView)
    requires
        g.current_player < g.players.len(),
        has_open_seat(g.winners, g.players.len() as int),
    ensures
        next_turn(g) < g.players.len(),
        !g.winners.contains(next_turn(g)),
{
    lemma_open_seat_from(g.winners, g.players.len() as int, g.current_player as int, 1);
}

pub(crate) fn is_winner(winners: &Vec<usize>, seat: usize) -> (r: bool)
    ensures
        r == winners@.contains(seat),
{
    let mut i: usize = 0;
    while i < winners.len()
        invariant
            i <= winners@.len(),
            forall|k: int| 0 <= k < i ==> winners@[k] != seat,
        decreases winners@.len() - i,
    {
        if winners[i] == seat {
            return true;
        }
        i = i + 1;
    }
    false
}

impl LudoGameState {

    /// In seat order and then piece order, the first opponent's piece on
    /// the board that stands on `cell`.
    fn find_capture(&self, cell: u8) -> (r: Option<(usize, usize)>)
        requires
            self@.wf(),
        ensures
            r matches Some(c) ==> c.0 < self.players@.len() && c.1 < 4
                && first_capture_from(self@, cell, 0, 0) == Some((c.0 as int, c.1 as int)),
            r is None ==> first_capture_from(self@, cell, 0, 0) is None,
    {
        let ghost g = self@;
        let cur = self.current_player;
        let n = self.players.len();
        let mut i: usize = 0;
        while i < n
            invariant
                self@ == g,
                g.wf(),
                n == self.players@.len(),
                cur == self.current_player,
                i <= n,
                first_capture_from(g, cell, 0, 0) == first_capture_from(g, cell, i as int, 0),
            decreases n - i,
        {
            let mut j: usize = 0;
            while j < 4
                invariant
                    self@ == g,
                    g.wf(),
                    n == self.players@.len(),
                    cur == self.current_player,
                    i < n,
                    j <= 4,
                    first_capture_from(g, cell, 0, 0) == first_capture_from(g, cell, i as int, j as int),
                decreases 4 - j,
            {
                let piece = self.players[i].pieces[j];
                proof {
                    assert(g.players[i as int] == self.players@[i as int]@);
                    lemma_piece_wf(g, i as int, j as int);
                }
                if i != cur && piece.status == PieceStatus::Active
                    && self.players[i].path[piece.position as usize] == cell {
                    return Some((i, j));
                }
                j = j + 1;
            }
            i = i + 1;
        }
        None
    }

    /// Resolves what landing on path index `new_position` does: a capture of
    /// the first opponent's piece on that cell, or else the turn's end.
    fn handle_collision(&mut self, new_position: i8)
        requires
            old(self)@.wf(),
            0 <= new_position < old(self)@.current().path.len(),
            collide_passes(old(self)@, new_position as int) ==> has_open_seat(
                old(self).winners@,
                old(self).players@.len() as int,
            ),
        ensures
            final(self)@ == collide(old(self)@, new_position as int),
            final(self)@.wf(),
    {
        proof {
            lemma_collide_wf(self@, new_position as int);
        }
        let ghost g = self@;
        let cur = self.current_player;
        proof {
            assert(g.players[cur as int] == self.players@[cur as int]@);
        }
        let cell = self.players[cur].path[new_position as usize];
        match self.find_capture(cell) {
            Some((i, j)) => {
                self.players[i].pieces[j] = Piece { position: -1, status: PieceStatus::Home };
                proof {
                    assert(self@.players =~= with_piece(g, i as int, j as int, home_piece()).players);
                }
            },
            None => {
                if self.dice_roll != 6 || self.sixes >= 3 {
                    self.current_player = self.get_next_turn();
                    self.sixes = 0;
                }
            },
        }
    }

    /// Moves piece `piece_index` of the current player by the last roll.
    pub fn move_piece(&mut self, piece_index: usize)
        requires
            old(self)@.wf(),
            piece_index < 4,
            move_passes(old(self)@, piece_index as int) ==> has_open_seat(
                old(self).winners@,
                old(self).players@.len() as int,
            ),
        ensures
            final(self)@ == moved(old(self)@, piece_index as int),
            final(self)@.wf(),
    {
        let ghost g = self@;
        let cur = self.current_player;
        proof {
            assert(g.players[cur as int] == self.players@[cur as int]@);
            lemma_piece_wf(g, cur as int, piece_index as int);
        }
        let piece = self.players[cur].pieces[piece_index];
        let len = self.players[cur].path.len();
        if piece.status == PieceStatus::Active {
            let new_position = piece.position + self.dice_roll as i8;
            if new_position as usize == len - 1 {
                let won = Piece { position: new_position, status: PieceStatus::Win };
                self.players[cur].pieces[piece_index] = won;
                let ghost g1 = with_piece(g, cur as int, piece_index as int, won);
                proof {
                    assert(self@.players =~= g1.players);
                    lemma_with_piece_wf(g, cur as int, piece_index as int, won);
                }
                let pieces = self.players[cur].pieces;
                if pieces[0].status == PieceStatus::Win && pieces[1].status == PieceStatus::Win
                    && pieces[2].status == PieceStatus::Win && pieces[3].status == PieceStatus::Win {
                    self.winners.push(cur);
                }
            } else if (new_position as usize) < len {
                let stepped = Piece { position: new_position, status: PieceStatus::Active };
                self.players[cur].pieces[piece_index] = stepped;
                proof {
                    assert(self@.players =~= with_piece(g, cur as int, piece_index as int, stepped).players);
                    lemma_with_piece_wf(g, cur as int, piece_index as int, stepped);
                }
                self.handle_collision(new_position);
            }
        } else if piece.status == PieceStatus::Home && self.dice_roll == 6 {
            let entered = Piece { position: 0, status: PieceStatus::Active };
            self.players[cur].pieces[piece_index] = entered;
            proof {
                assert(self@.players =~= with_piece(g, cur as int, piece_index as int, entered).players);
                lemma_with_piece_wf(g, cur as int, piece_index as int, entered);
            }
            self.handle_collision(0);
        }
    }

    /// Records a roll of the die and plays what it forces. Returns whether the
    /// turn ended on its own; when it did not, the player must choose a piece.
    pub fn roll_dice(&mut self, dice_roll: u8) -> (turn_ended: bool)
        requires
            old(self)@.wf(),
            1 <= dice_roll <= 6,
            roll_passes(old(self)@, dice_roll) ==> roll_allowed(old(self)@, dice_roll),
        ensures
            final(self)@ == rolled(old(self)@, dice_roll),
            turn_ended == roll_ends_turn(old(self)@, dice_roll),
            final(self)@.wf(),
    {
        let ghost g = self@;
        self.dice_roll = dice_roll;
        if dice_roll == 6 {
            self.winners.push(self.current_player);
            self.sixes = self.sixes + 1;
        }
        let ghost g2 = self@;
        proof {
            assert(g2 == after_six(g, dice_roll));
            assert(g2.players[g2.current_player as int] == self.players@[self.current_player as int]@);
        }
        let pieces = self.players[self.current_player].pieces;
        let a0 = pieces[0].status == PieceStatus::Active;
        let a1 = pieces[1].status == PieceStatus::Active;
        let a2 = pieces[2].status == PieceStatus::Active;
        let a3 = pieces[3].status == PieceStatus::Active;
        let active_pieces: usize = (if a0 { 1 } else { 0 }) + (if a1 { 1 } else { 0 })
            + (if a2 { 1 } else { 0 }) + (if a3 { 1 } else { 0 });
        if (active_pieces == 0 && dice_roll != 6) || self.sixes >= 3 {
            self.current_player = self.get_next_turn();
            self.sixes = 0;
            proof {
                lemma_pass_turn_wf(GameView { sixes: 0, ..g2 });
            }
            return true;
        } else if active_pieces == 1 && dice_roll != 6 {
            let first: usize = if a0 { 0 } else if a1 { 1 } else if a2 { 2 } else { 3 };
            self.move_piece(first);
            return true;
        }
        false
    }

    /// The seat whose turn comes next, skipping the winners.
    pub fn get_next_turn(&self) -> (r: usize)
        requires
            self.current_player < self.players@.len(),
            has_open_seat(self.winners@, self.players@.len() as int),
        ensures
            r == next_turn(self@),
            r < self.players@.len(),
            !self.winners@.contains(r),
    {
        proof {
            assert(self@.players.len() == self.players@.len());
            lemma_open_seat_from(self.winners@, self.players@.len() as int, self.current_player as int, 1);
        }
        let n = self.players.len();
        let cur = self.current_player;
        let mut next_index: usize = if cur + 1 == n { 0 } else { cur + 1 };
        let ghost mut k: int = 1;
        while is_winner(&self.winners, next_index)
            invariant
                n == self.players@.len(),
                cur == self.current_player,
                cur < n,
                1 <= k <= n,
                next_index == seat_after(cur as int, k, n as int),
                open_seat_from(self.winners@, n as int, cur as int, 1) == open_seat_from(self.winners@, n as int, cur as int, k),
                0 <= open_seat_from(self.winners@, n as int, cur as int, 1) < n,
                !self.winners@.contains(open_seat_from(self.winners@, n as int, cur as int, 1) as usize),
            decreases n - k,
        {
            proof {
                let w = self.winners@;
                assert(open_seat_from(w, n as int, cur as int, k) == open_seat_from(w, n as int, cur as int, k + 1));
                if k == n {
                    assert(seat_after(cur as int, k, n as int) == cur);
                }
            }
            next_index = if next_index + 1 == n { 0 } else { next_index + 1 };
            proof {
                k = k + 1;
            }
        }
        next_index
    }
}

/// One full move: the roll, and then, when the roll left the choice open,
/// the chosen piece.
pub open spec fn processed(g: GameView, play: Play) -> GameView {
    if roll_ends_turn(g, play.dice_roll) {
        rolled(g, play.dice_roll)
    } else {
        moved(rolled(g, play.dice_roll), play.piece_index as int)
    }
}

/// A move that the rules can play: a die value, a piece of the four, and,
/// when the move hands the turn on, a seat left to take it.
pub open spec fn playable(g: GameView, play: Play) -> bool {
    &&& g.wf()
    &&& 1 <= play.dice_roll <= 6
    &&& play.piece_index < 4
    &&& play_passes(g, play) ==> roll_allowed(g, play.dice_roll)
}

impl PlayGameParams {
    pub fn new(state: LudoGameState, play: Play) -> (r: Self)
        ensures
            r.state@ == state@,
            r.play == play,
    {
        PlayGameParams { state, play }
    }

    /// Plays the move on a copy of the state and returns the new state with
    /// the seat whose turn it now is.
    pub fn process(&self) -> (r: PlayGameResult)
        requires
            playable(self.state@, self.play),
        ensures
            r.state@ == processed(self.state@, self.play),
            r.next_player == r.state.current_player,
            r.state@.wf(),
    {
        let mut state = self.state.clone();
        let player_moved = state.roll_dice(self.play.dice_roll);
        if !player_moved {
            state.move_piece(self.play.piece_index as usize);
        }
        let next_player = state.current_player;
        PlayGameResult { state, next_player }
    }
}

/// A six is recorded as a six: the current player is added to the winners,
/// and short of the third six in a row the run grows by one and the turn stays.
pub proof fn lemma_six_counts(g: GameView)
    requires
        g.wf(),
    ensures
        rolled(g, 6).winners == g.winners.push(g.current_player),
        g.sixes < 2 ==> rolled(g, 6).sixes == g.sixes + 1,
        g.sixes < 2 ==> rolled(g, 6).current_player == g.current_player,
        g.sixes < 2 ==> !roll_ends_turn(g, 6),
{
}

/// The third six in a row ends the turn whatever is on the board: the turn
/// passes to another seat and the run starts over.
pub proof fn lemma_third_six_passes(g: GameView)
    requires
        g.wf(),
        g.sixes == 2,
        roll_allowed(g, 6),
    ensures
        roll_ends_turn(g, 6),
        rolled(g, 6).sixes == 0,
        rolled(g, 6).current_player == next_turn(after_six(g, 6)),
        rolled(g, 6).current_player != g.current_player,
{
    let g2 = after_six(g, 6);
    lemma_next_turn_is_open_seat(g2);
    assert(g2.winners.last() == g.current_player);
}

/// With no piece on the board and no six, the turn passes to the next seat.
pub proof fn lemma_nothing_to_move_passes(g: GameView, d: u8)
    requires
        g.wf(),
        1 <= d < 6,
        active_count(g.current()) == 0,
    ensures
        roll_ends_turn(g, d),
        rolled(g, d).current_player == next_turn(g),
        rolled(g, d).sixes == 0,
        rolled(g, d).players == g.players,
{
}

/// With exactly one piece on the board and no six, that piece moves on its
/// own and the turn ends.
pub proof fn lemma_single_piece_moves(g: GameView, d: u8)
    requires
        g.wf(),
        1 <= d < 6,
        active_count(g.current()) == 1,
    ensures
        roll_ends_turn(g, d),
        is_active(g.current().pieces[first_active(g.current())]),
        rolled(g, d) == moved(GameView { dice_roll: d, ..g }, first_active(g.current())),
{
}

/// An active piece that reaches the last cell of its path exactly wins, and
/// its player joins the winners when all four pieces have won.
pub proof fn lemma_exact_finish_wins(g: GameView, idx: int)
    requires
        g.wf(),
        0 <= idx < 4,
        is_active(g.current().pieces[idx]),
        g.current().pieces[idx].position + g.dice_roll == g.current().path.len() - 1,
    ensures
        moved(g, idx).current().pieces[idx] == (Piece {
            position: (g.current().path.len() - 1) as i8,
            status: PieceStatus::Win,
        }),
        all_won(moved(g, idx).current()) ==> moved(g, idx).winners == g.winners.push(g.current_player),
        !all_won(moved(g, idx).current()) ==> moved(g, idx).winners == g.winners,
{
}

proof fn lemma_first_capture_sound(g: GameView, cell: u8, i: int, j: int)
    ensures
        first_capture_from(g, cell, i, j) matches Some(c) ==> captures(g, cell, c.0, c.1)
            && 0 <= c.0 < g.players.len() && 0 <= c.1 < 4,
    decreases g.players.len() - i, 4 - j,
{
    if i < 0 || i >= g.players.len() || j < 0 {
    } else if j >= 4 {
        lemma_first_capture_sound(g, cell, i + 1, 0);
    } else if captures(g, cell, i, j) {
    } else {
        lemma_first_capture_sound(g, cell, i, j + 1);
    }
}

proof fn lemma_first_capture_complete(g: GameView, cell: u8, i: int, j: int, ci: int, cj: int)
    requires
        0 <= i,
        0 <= j,
        0 <= ci < g.players.len(),
        0 <= cj < 4,
        captures(g, cell, ci, cj),
        i < ci || (i == ci && j <= cj),
    ensures
        first_capture_from(g, cell, i, j) is Some,
    decreases g.players.len() - i, 4 - j,
{
    if j >= 4 {
        lemma_first_capture_complete(g, cell, i + 1, 0, ci, cj);
    } else if !captures(g, cell, i, j) {
        lemma_first_capture_complete(g, cell, i, j + 1, ci, cj);
    }
}

/// Landing on a cell where exactly one opponent's piece stands on the board
/// sends that piece home and changes nothing else: every other piece, the
/// turn, the run of sixes and the winners stay as they were.
pub proof fn lemma_lone_opponent_captured(g: GameView, pos: int, i: int, j: int)
    requires
        g.wf(),
        0 <= pos < g.current().path.len(),
        0 <= i < g.players.len(),
        0 <= j < 4,
        captures(g, g.current().path[pos], i, j),
        forall|i2: int, j2: int|
            0 <= i2 < g.players.len() && 0 <= j2 < 4 && #[trigger] captures(g, g.current().path[pos], i2, j2)
                ==> i2 == i && j2 == j,
    ensures
        collide(g, pos) == with_piece(g, i, j, home_piece()),
        collide(g, pos).players[i].pieces[j] == home_piece(),
        collide(g, pos).current_player == g.current_player,
        collide(g, pos).sixes == g.sixes,
        collide(g, pos).winners == g.winners,
{
    let cell = g.current().path[pos];
    lemma_first_capture_complete(g, cell, 0, 0, i, j);
    lemma_first_capture_sound(g, cell, 0, 0);
}

/// Landing on a cell where no opponent's piece stands captures nothing:
/// every piece keeps its place and the winners stay. The turn then passes
/// to the next seat, with the run of sixes cleared, unless a six short of
/// the third grants another move.
pub proof fn lemma_empty_cell_captures_nothing(g: GameView, pos: int)
    requires
        g.wf(),
        0 <= pos < g.current().path.len(),
        forall|i2: int, j2: int|
            0 <= i2 < g.players.len() && 0 <= j2 < 4 ==> !#[trigger] captures(g, g.current().path[pos], i2, j2),
    ensures
        collide(g, pos).players == g.players,
        collide(g, pos).winners == g.winners,
        collide(g, pos) == (if g.dice_roll != 6 || g.sixes >= 3 {
            pass_turn(g)
        } else {
            g
        }),
{
    lemma_first_capture_sound(g, g.current().path[pos], 0, 0);
}

} // verus!
