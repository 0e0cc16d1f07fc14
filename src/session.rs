//! One game's session: it checks each move before it is attested, and takes
//! a new state only from an attestation that matches what it expects.

use vstd::prelude::*;
use crate::commit::{
    encodable, hash_state, is_init_commit, is_play_commit, InitializeGameStateCommit, PlayGameCommit,
};
use crate::model::{piece_wf, Color, GameView, LudoGameState, PieceStatus, Play, PlayGameParams, MAX_PATH_LEN};
use crate::rules::{has_open_seat, is_winner, playable, roll_allowed};

verus! {

/// Why an operation on a game failed.
#[derive(Clone, Copy, Debug, PartialEq, Eq, Structural)]
pub enum GameError {
    /// The move's die value or piece is out of range, or it is not the
    /// submitting seat's turn.
    InvalidMove,
    /// No session is kept under the key given.
    GameNotFound,
    /// Once the roll is counted every seat is among the winners, so no seat
    /// is left to take a turn: the game is over.
    GameFinished,
    /// The proving backend could not run the program.
    ProvingError,
    /// The attestation is not from the expected program, or does not match
    /// the state and move it should commit to.
    VerificationError,
    /// The attested output does not read as the expected commitment.
    DecodeError,
}

/// How the proving backend failed to attest an operation.
#[derive(Clone, Copy, Debug, PartialEq, Eq, Structural)]
pub enum AttestationFailure {
    Proving,
    Verification,
    Decode,
}

pub open spec fn failure_error(f: AttestationFailure) -> GameError {
    match f {
        AttestationFailure::Proving => GameError::ProvingError,
        AttestationFailure::Verification => GameError::VerificationError,
        AttestationFailure::Decode => GameError::DecodeError,
    }
}

impl AttestationFailure {
    pub fn to_error(self) -> (r: GameError)
        ensures
            r == failure_error(self),
    {
        match self {
            AttestationFailure::Proving => GameError::ProvingError,
            AttestationFailure::Verification => GameError::VerificationError,
            AttestationFailure::Decode => GameError::DecodeError,
        }
    }
}

/// The move names the seat whose turn it is, a die value and one of the
/// four pieces.
pub open spec fn move_in_range(g: GameView, play: Play) -> bool {
    &&& 1 <= play.dice_roll <= 6
    &&& play.piece_index <= 3
    &&& play.current_player == g.current_player
}

/// An attested transition that the session accepts: the new state is well
/// formed and the commitment binds the old state, the move and the new state.
pub open spec fn accepted_play(before: GameView, play: Play, after: GameView, c: PlayGameCommit) -> bool {
    &&& after.wf()
    &&& encodable(after)
    &&& is_play_commit(c, before, play, after)
}

/// The color of the first seat that joined the winners, if any did.
pub open spec fn first_winner_color(g: GameView) -> Option<Color> {
    if g.winners.len() > 0 && g.winners[0] < g.players.len() {
        Some(g.players[g.winners[0] as int].color)
    } else {
        None
    }
}

fn same_digest(a: &[u32; 8], b: &[u32; 8]) -> (r: bool)
    ensures
        r == (a@ == b@),
{
    let mut i: usize = 0;
    while i < 8
        invariant
            i <= 8,
            forall|k: int| 0 <= k < i ==> a@[k] == b@[k],
        decreases 8 - i,
    {
        if a[i] != b[i] {
            return false;
        }
        i = i + 1;
    }
    assert(a@ =~= b@);
    true
}

fn same_seats(a: &Vec<usize>, b: &Vec<usize>) -> (r: bool)
    ensures
        r == (a@ == b@),
{
    if a.len() != b.len() {
        return false;
    }
    let mut i: usize = 0;
    while i < a.len()
        invariant
            a@.len() == b@.len(),
            i <= a@.len(),
            forall|k: int| 0 <= k < i ==> a@[k] == b@[k],
        decreases a@.len() - i,
    {
        if a[i] != b[i] {
            return false;
        }
        i = i + 1;
    }
    assert(a@ =~= b@);
    true
}

/// Whether `s` is a state that the rules and the encoding accept.
pub fn is_playable_state(s: &LudoGameState) -> (r: bool)
    ensures
        r == (s@.wf() && encodable(s@)),
{
    let n = s.players.len();
    if n == 0 || n > u32::MAX as usize || s.current_player >= n || s.dice_roll > 6 || s.sixes >= 3
        || s.winners.len() > u32::MAX as usize {
        return false;
    }
    let mut i: usize = 0;
    while i < n
        invariant
            n == s.players@.len(),
            i <= n,
            forall|k: int| 0 <= k < i ==> (#[trigger] s@.players[k]).wf(),
        decreases n - i,
    {
        let len = s.players[i].path.len();
        if len < 2 || len > MAX_PATH_LEN {
            return false;
        }
        let mut j: usize = 0;
        while j < 4
            invariant
                n == s.players@.len(),
                i < n,
                len == s@.players[i as int].path.len(),
                2 <= len <= MAX_PATH_LEN,
                j <= 4,
                forall|m: int| 0 <= m < j ==> piece_wf(#[trigger] s@.players[i as int].pieces[m], len as int),
            decreases 4 - j,
        {
            let p = s.players[i].pieces[j];
            let ok = match p.status {
                PieceStatus::Home => p.position == -1,
                PieceStatus::Active => 0 <= p.position && (p.position as usize) <= len - 2,
                PieceStatus::Win => p.position >= 0 && p.position as usize == len - 1,
            };
            if !ok {
                return false;
            }
            j = j + 1;
        }
        i = i + 1;
    }
    true
}

/// Whether, after rolling `d`, some seat is left to pass the turn to.
fn seat_open_after_roll(s: &LudoGameState, d: u8) -> (r: bool)
    requires
        s.current_player < s.players@.len(),
    ensures
        r == roll_allowed(s@, d),
{
    let ghost w = if d == 6 { s.winners@.push(s.current_player) } else { s.winners@ };
    let n = s.players.len();
    let mut seat: usize = 0;
    while seat < n
        invariant
            n == s.players@.len(),
            seat <= n,
            w == (if d == 6 { s.winners@.push(s.current_player) } else { s.winners@ }),
            forall|k: int| 0 <= k < seat ==> w.contains(#[trigger] (k as usize)),
        decreases n - seat,
    {
        let taken = is_winner(&s.winners, seat) || (d == 6 && seat == s.current_player);
        proof {
            if d == 6 {
                assert(w.contains(seat) == (s.winners@.contains(seat) || seat == s.current_player)) by {
                    if s.winners@.contains(seat) {
                        let k = choose|k: int| 0 <= k < s.winners@.len() && s.winners@[k] == seat;
                        assert(w[k] == seat);
                    }
                    if seat == s.current_player {
                        assert(w[s.winners@.len() as int] == seat);
                    }
                    if w.contains(seat) {
                        let k = choose|k: int| 0 <= k < w.len() && w[k] == seat;
                        if k < s.winners@.len() {
                            assert(s.winners@[k] == seat);
                        }
                    }
                }
            }
        }
        if !taken {
            proof {
                assert(s@.players.len() == n);
                assert(!w.contains(seat as int as usize));
            }
            return true;
        }
        seat = seat + 1;
    }
    proof {
        assert(s@.players.len() == n);
        if has_open_seat(w, n as int) {
            let k = choose|k: int| 0 <= k < n && !w.contains(#[trigger] (k as usize));
            assert(w.contains(k as usize));
        }
    }
    false
}

/// A move as it arrives for a game kept under `game_id`.
#[derive(Debug)]
pub struct PlayRequest {
    pub game_id: String,
    pub current_player: usize,
    pub dice_roll: u8,
    pub piece_index: u8,
}

impl PlayRequest {
    /// The move that the request submits.
    pub fn play(&self) -> (r: Play)
        ensures
            r == (Play {
                current_player: self.current_player,
                dice_roll: self.dice_roll,
                piece_index: self.piece_index,
            }),
    {
        Play { current_player: self.current_player, dice_roll: self.dice_roll, piece_index: self.piece_index }
    }
}

/// A game in progress: the last state that an attestation confirmed.
#[derive(Debug)]
pub struct Game {
    pub state: LudoGameState,
}

impl Game {
    pub open spec fn wf(&self) -> bool {
        self.state@.wf() && encodable(self.state@)
    }

    pub fn new(state: LudoGameState) -> (r: Self)
        requires
            state@.wf(),
            encodable(state@),
        ensures
            r.state@ == state@,
            r.wf(),
    {
        Game { state }
    }

    /// Accepts the attestation of the game's start when it commits to the
    /// state that the session holds.
    pub fn init(&self, attested: Result<InitializeGameStateCommit, AttestationFailure>) -> (r: Result<
        InitializeGameStateCommit,
        GameError,
    >)
        requires
            self.wf(),
        ensures
            match attested {
                Err(f) => r == Err::<InitializeGameStateCommit, GameError>(failure_error(f)),
                Ok(c) => if is_init_commit(c, self.state@) {
                    r == Ok::<InitializeGameStateCommit, GameError>(c)
                } else {
                    r == Err::<InitializeGameStateCommit, GameError>(GameError::VerificationError)
                },
            },
    {
        match attested {
            Err(f) => Err(f.to_error()),
            Ok(c) => {
                let expected = InitializeGameStateCommit::of(&self.state);
                if c.current_player == expected.current_player && c.dice_roll == expected.dice_roll
                    && same_seats(&c.winners, &expected.winners) && c.sixes == expected.sixes
                    && same_digest(&c.state_hash, &expected.state_hash) {
                    Ok(c)
                } else {
                    Err(GameError::VerificationError)
                }
            },
        }
    }

    /// Checks a move before it goes to the proving backend, and pairs it with
    /// the state it is played on.
    pub fn prepare_play(&self, play: &Play) -> (r: Result<PlayGameParams, GameError>)
        requires
            self.wf(),
        ensures
            r is Ok <==> move_in_range(self.state@, *play) && roll_allowed(self.state@, play.dice_roll),
            r matches Ok(p) ==> p.state@ == self.state@ && p.play == *play && playable(p.state@, p.play),
            !move_in_range(self.state@, *play) ==> r == Err::<PlayGameParams, GameError>(GameError::InvalidMove),
            move_in_range(self.state@, *play) && !roll_allowed(self.state@, play.dice_roll) ==> r == Err::<
                PlayGameParams,
                GameError,
            >(GameError::GameFinished),
    {
        if play.dice_roll < 1 || play.dice_roll > 6 || play.piece_index > 3
            || play.current_player != self.state.current_player {
            return Err(GameError::InvalidMove);
        }
        if !seat_open_after_roll(&self.state, play.dice_roll) {
            return Err(GameError::GameFinished);
        }
        Ok(PlayGameParams::new(self.state.clone(), *play))
    }

    /// Takes the outcome of attesting `play` on the session's state. A move
    /// out of range is refused first. The new state is kept only when the
    /// commitment binds the session's state, the move and that new state;
    /// otherwise the state stays as it was.
    pub fn play(
        &mut self,
        play: &Play,
        attested: Result<(LudoGameState, PlayGameCommit), AttestationFailure>,
    ) -> (r: Result<PlayGameCommit, GameError>)
        requires
            old(self).wf(),
        ensures
            final(self).wf(),
            !move_in_range(old(self).state@, *play) ==> r == Err::<PlayGameCommit, GameError>(
                GameError::InvalidMove,
            ) && final(self).state@ == old(self).state@,
            move_in_range(old(self).state@, *play) ==> match attested {
                Err(f) => r == Err::<PlayGameCommit, GameError>(failure_error(f)) && final(self).state@
                    == old(self).state@,
                Ok((s, c)) => if accepted_play(old(self).state@, *play, s@, c) {
                    r == Ok::<PlayGameCommit, GameError>(c) && final(self).state@ == s@
                } else {
                    r == Err::<PlayGameCommit, GameError>(GameError::VerificationError) && final(self).state@
                        == old(self).state@
                },
            },
    {
        if play.dice_roll < 1 || play.dice_roll > 6 || play.piece_index > 3
            || play.current_player != self.state.current_player {
            return Err(GameError::InvalidMove);
        }
        match attested {
            Err(f) => Err(f.to_error()),
            Ok((s, c)) => {
                if !is_playable_state(&s) {
                    return Err(GameError::VerificationError);
                }
                let before = hash_state(&self.state);
                let after = hash_state(&s);
                if same_digest(&c.old_state, &before) && same_digest(&c.new_state, &after)
                    && c.current_player == play.current_player && c.dice_roll == play.dice_roll
                    && c.piece_index == play.piece_index {
                    self.state = s;
                    Ok(c)
                } else {
                    Err(GameError::VerificationError)
                }
            },
        }
    }

    /// The color of the first winner, as the winners program commits it.
    pub fn winner_color(&self) -> (r: Option<Color>)
        ensures
            r == first_winner_color(self.state@),
    {
        if self.state.winners.len() > 0 && self.state.winners[0] < self.state.players.len() {
            Some(self.state.players[self.state.winners[0]].color)
        } else {
            None
        }
    }

    /// Accepts the attested first winner when it is the one the session's
    /// state shows.
    pub fn verify_winners(&self, attested: Result<Option<Color>, AttestationFailure>) -> (r: Result<
        Option<Color>,
        GameError,
    >)
        ensures
            match attested {
                Err(f) => r == Err::<Option<Color>, GameError>(failure_error(f)),
                Ok(c) => if c == first_winner_color(self.state@) {
                    r == Ok::<Option<Color>, GameError>(c)
                } else {
                    r == Err::<Option<Color>, GameError>(GameError::VerificationError)
                },
            },
    {
        match attested {
            Err(f) => Err(f.to_error()),
            Ok(c) => {
                let expected = self.winner_color();
                if c == expected {
                    Ok(c)
                } else {
                    Err(GameError::VerificationError)
                }
            },
        }
    }
}

} // verus!
