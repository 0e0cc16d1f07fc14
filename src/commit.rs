//! The public commitments: digests of game states and the fields that a
//! verifier recomputes for a new game and for each transition.

use vstd::prelude::*;
use crate::model::{Color, GameView, LudoGameState, Play, PlayGameParams};

verus! {

/// The word encoding of a game state: each field in declaration order, an
/// enum as its variant index, a sequence as its length and then its items.
pub uninterp spec fn state_words(g: GameView) -> Seq<u32>;

/// The SHA-256 digest of a sequence of words (their bytes in memory order),
/// as eight words.
pub uninterp spec fn sha256_of_words(words: Seq<u32>) -> Seq<u32>;

/// The digest that commits to a game state.
pub open spec fn state_digest(g: GameView) -> Seq<u32> {
    sha256_of_words(state_words(g))
}

/// A state that the word encoding takes whole: no sequence in it is longer
/// than a word can count.
pub open spec fn encodable(g: GameView) -> bool {
    &&& g.players.len() <= u32::MAX
    &&& g.winners.len() <= u32::MAX
    &&& forall|i: int| 0 <= i < g.players.len() ==> (#[trigger] g.players[i]).path.len() <= u32::MAX
}

/// Relies on risc0_zkvm::serde::to_vec: the words that the proving backend
/// reads a state as. The state is handed over field by field, which encodes
/// as the struct does. The encoder fails only on sequences or maps of unknown
/// length, and the state holds none.
#[verifier::external_body]
fn encode_state(s: &LudoGameState) -> (r: Vec<u32>)
    requires
        encodable(s@),
    ensures
        r@ == state_words(s@),
{
    let players: Vec<_> = s.players.iter().map(|p| {
        (p.name.as_str(), p.color as u32, p.pieces.map(|q| (q.position, q.status as u32)), &p.path)
    }).collect();
    risc0_zkvm::serde::to_vec(&(players, s.current_player, s.dice_roll, &s.winners, s.sixes)).unwrap()
}

/// Relies on risc0_zkvm::sha::Impl::hash_words: the SHA-256 digest of the
/// words' bytes in memory order, a function of the words alone.
#[verifier::external_body]
fn hash_words(words: &Vec<u32>) -> (r: [u32; 8])
    ensures
        r@ == sha256_of_words(words@),
{
    let digest = <risc0_zkvm::sha::Impl as risc0_zkvm::sha::Sha256>::hash_words(words.as_slice());
    <[u32; 8]>::from(*digest)
}

/// The digest that commits to `s`.
pub fn hash_state(s: &LudoGameState) -> (r: [u32; 8])
    requires
        encodable(s@),
    ensures
        r@ == state_digest(s@),
{
    let words = encode_state(s);
    hash_words(&words)
}

/// What a new game commits to: its opening fields and the digest of the
/// whole state.
#[derive(Debug)]
pub struct InitializeGameStateCommit {
    pub current_player: usize,
    pub dice_roll: u8,
    pub winners: Vec<usize>,
    pub sixes: u8,
    pub state_hash: [u32; 8],
}

/// What a transition commits to: the digests of the states before and after
/// it, and the move as submitted.
#[derive(Clone, Copy, Debug)]
pub struct PlayGameCommit {
    pub old_state: [u32; 8],
    pub new_state: [u32; 8],
    pub current_player: usize,
    pub dice_roll: u8,
    pub piece_index: u8,
}

/// The full list of winners, in the order they were added.
#[derive(Debug)]
pub struct WinnersCommit {
    pub winners: Vec<usize>,
}

/// The commitment to a new game in state `g` with digest `hash`.
pub open spec fn is_init_commit(c: InitializeGameStateCommit, g: GameView) -> bool {
    &&& c.current_player == g.current_player
    &&& c.dice_roll == g.dice_roll
    &&& c.winners@ == g.winners
    &&& c.sixes == g.sixes
    &&& c.state_hash@ == state_digest(g)
}

/// The commitment to playing `play` from `before` to `after`.
pub open spec fn is_play_commit(c: PlayGameCommit, before: GameView, play: Play, after: GameView) -> bool {
    &&& c.old_state@ == state_digest(before)
    &&& c.new_state@ == state_digest(after)
    &&& c.current_player == play.current_player
    &&& c.dice_roll == play.dice_roll
    &&& c.piece_index == play.piece_index
}

impl InitializeGameStateCommit {
    /// The commitment to a new game in state `s`.
    pub fn of(s: &LudoGameState) -> (r: Self)
        requires
            encodable(s@),
        ensures
            is_init_commit(r, s@),
    {
        InitializeGameStateCommit {
            current_player: s.current_player,
            dice_roll: s.dice_roll,
            winners: s.winners.clone(),
            sixes: s.sixes,
            state_hash: hash_state(s),
        }
    }
}

impl PlayGameCommit {
    /// The commitment to the transition from `params.state` to `after` by
    /// `params.play`.
    pub fn of(params: &PlayGameParams, after: &LudoGameState) -> (r: Self)
        requires
            encodable(params.state@),
            encodable(after@),
        ensures
            is_play_commit(r, params.state@, params.play, after@),
    {
        PlayGameCommit {
            old_state: hash_state(&params.state),
            new_state: hash_state(after),
            current_player: params.play.current_player,
            dice_roll: params.play.dice_roll,
            piece_index: params.play.piece_index,
        }
    }
}

/// A transition commitment is fixed by the states before and after it and by
/// the move: equal states always give equal digests.
pub proof fn lemma_commit_deterministic(
    a: GameView,
    b: GameView,
    play: Play,
    c1: PlayGameCommit,
    c2: PlayGameCommit,
)
    requires
        is_play_commit(c1, a, play, b),
        is_play_commit(c2, a, play, b),
    ensures
        c1 == c2,
{
    assert(c1.old_state =~= c2.old_state);
    assert(c1.new_state =~= c2.new_state);
}

/// The little-endian byte `b` of the word `w`.
pub open spec fn le_byte(w: u32, b: int) -> u8 {
    ((w >> ((8 * b) as u32)) & 0xffu32) as u8
}

/// The 32 bytes of a digest given as eight words, each word little-endian.
pub fn convert(data: &[u32; 8]) -> (r: [u8; 32])
    ensures
        forall|i: int, b: int| 0 <= i < 8 && 0 <= b < 4 ==> #[trigger] r@[4 * i + b] == le_byte(data@[i], b),
{
    let mut res: [u8; 32] = [0u8; 32];
    let mut i: usize = 0;
    while i < 8
        invariant
            i <= 8,
            forall|k: int, b: int| 0 <= k < i && 0 <= b < 4 ==> #[trigger] res@[4 * k + b] == le_byte(data@[k], b),
        decreases 8 - i,
    {
        let w = data[i];
        res[4 * i] = (w & 0xff) as u8;
        res[4 * i + 1] = ((w >> 8u32) & 0xff) as u8;
        res[4 * i + 2] = ((w >> 16u32) & 0xff) as u8;
        res[4 * i + 3] = ((w >> 24u32) & 0xff) as u8;
        proof {
            assert(le_byte(w, 0) == (w & 0xff) as u8) by (bit_vector);
        }
        i = i + 1;
    }
    res
}

} // verus!
