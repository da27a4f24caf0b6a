//! Game state as the front end receives it: the opponent choice, a snapshot
//! of the game position, and the shown state derived from it.

use vstd::prelude::*;
use vstd::string::StringExecFns;

use crate::board::{
    piece_short_text, piece_type_code, piece_type_text, player_code, player_text, slot_text, Piece,
    PieceType, Player, Slot,
};
use crate::text::text_eq;

verus! {

/// Who answers the human player's moves.
#[derive(Clone, Copy, PartialEq, Eq, Structural, Debug)]
pub enum OpponentType {
    /// Two humans at one board.
    PvP,
    /// Uniformly random legal moves.
    Random,
    /// Prefers revealing a face-down piece.
    RevealFirst,
    /// Expectimax search with a node budget.
    Engine,
    /// Gumbel MCTS guided by a TorchScript network.
    MctsDL,
    /// Gumbel MCTS guided by an ONNX network.
    MctsOnnx,
    /// Expectimax search with an NNUE leaf evaluator.
    Nnue,
}

/// The name under which the front end sends and receives an opponent type.
pub open spec fn opponent_name(t: OpponentType) -> Seq<char> {
    match t {
        OpponentType::PvP => "PvP"@,
        OpponentType::Random => "Random"@,
        OpponentType::RevealFirst => "RevealFirst"@,
        OpponentType::Engine => "Engine"@,
        OpponentType::MctsDL => "MctsDL"@,
        OpponentType::MctsOnnx => "MctsOnnx"@,
        OpponentType::Nnue => "Nnue"@,
    }
}

/// The opponent that a name selects; any unknown name selects `PvP`.
pub open spec fn opponent_from_text(n: Seq<char>) -> OpponentType {
    if n == "Random"@ {
        OpponentType::Random
    } else if n == "RevealFirst"@ {
        OpponentType::RevealFirst
    } else if n == "Engine"@ {
        OpponentType::Engine
    } else if n == "MctsDL"@ {
        OpponentType::MctsDL
    } else if n == "MctsOnnx"@ {
        OpponentType::MctsOnnx
    } else if n == "Nnue"@ {
        OpponentType::Nnue
    } else {
        OpponentType::PvP
    }
}

/// The opponent that an optional name selects; no name selects `PvP`.
pub open spec fn opponent_from_name(name: Option<Seq<char>>) -> OpponentType {
    match name {
        Some(n) => opponent_from_text(n),
        None => OpponentType::PvP,
    }
}

impl OpponentType {
    /// Parses the opponent name that the front end sends with a new game.
    pub fn from_name(name: Option<&str>) -> (t: OpponentType)
        ensures
            t == opponent_from_name(
                match name {
                    Some(n) => Some(n@),
                    None => None,
                },
            ),
    {
        match name {
            None => OpponentType::PvP,
            Some(n) => {
                if text_eq(n, "Random") {
                    OpponentType::Random
                } else if text_eq(n, "RevealFirst") {
                    OpponentType::RevealFirst
                } else if text_eq(n, "Engine") {
                    OpponentType::Engine
                } else if text_eq(n, "MctsDL") {
                    OpponentType::MctsDL
                } else if text_eq(n, "MctsOnnx") {
                    OpponentType::MctsOnnx
                } else if text_eq(n, "Nnue") {
                    OpponentType::Nnue
                } else {
                    OpponentType::PvP
                }
            },
        }
    }
}

/// An opponent type read back from its own name is that opponent type: the
/// name the front end receives selects the same opponent when sent back.
pub proof fn lemma_opponent_name_round_trip(t: OpponentType)
    ensures
        opponent_from_name(Some(opponent_name(t))) == t,
{
    reveal_strlit("PvP");
    reveal_strlit("Random");
    reveal_strlit("RevealFirst");
    reveal_strlit("Engine");
    reveal_strlit("MctsDL");
    reveal_strlit("MctsOnnx");
    reveal_strlit("Nnue");
    assert("PvP"@.len() == 3);
    assert("Random"@.len() == 6);
    assert("RevealFirst"@.len() == 11);
    assert("Engine"@.len() == 6);
    assert("MctsDL"@.len() == 6);
    assert("MctsOnnx"@.len() == 8);
    assert("Nnue"@.len() == 4);
    assert("Random"@[0] != "Engine"@[0]);
    assert("Random"@[0] != "MctsDL"@[0]);
    assert("Engine"@[0] != "MctsDL"@[0]);
}

/// The board variants: the standard 4x8 board, the 4x4 board and the 4x2
/// mini board.
#[derive(Clone, Copy, PartialEq, Eq, Structural, Debug)]
pub enum Variant {
    DarkChess4x8,
    DarkChess4x4,
    DarkChess4x2,
}

/// The variant that a new game is played on: the requested one, and the
/// standard 4x8 board when none (or none that is known) was requested.
pub fn board_variant(requested: Option<Variant>) -> (v: Variant)
    ensures
        v == match requested {
            Some(r) => r,
            None => Variant::DarkChess4x8,
        },
{
    match requested {
        Some(Variant::DarkChess4x2) => Variant::DarkChess4x2,
        Some(Variant::DarkChess4x4) => Variant::DarkChess4x4,
        _ => Variant::DarkChess4x8,
    }
}

/// The name of a side, as the board view shows it.
pub fn player_label(p: Player) -> (r: String)
    ensures
        r@ == player_text(p),
{
    match p {
        Player::Red => String::from_str("Red"),
        Player::Black => String::from_str("Black"),
    }
}

fn player_code_text(p: Player) -> (r: &'static str)
    ensures
        r@ == player_code(p),
{
    match p {
        Player::Red => "R",
        Player::Black => "B",
    }
}

fn piece_type_code_text(t: PieceType) -> (r: &'static str)
    ensures
        r@ == piece_type_code(t),
{
    match t {
        PieceType::General => "Gen",
        PieceType::Advisor => "Adv",
        PieceType::Soldier => "Sol",
        PieceType::Cannon => "Can",
        PieceType::Horse => "Hor",
        PieceType::Chariot => "Car",
        PieceType::Elephant => "Ele",
    }
}

/// The short name of a piece, such as `R_Gen` or `B_Sol`.
pub fn get_piece_short_name(piece: &Piece) -> (r: String)
    ensures
        r@ == piece_short_text(*piece),
{
    let mut s = String::from_str(player_code_text(piece.player));
    s.append("_");
    s.append(piece_type_code_text(piece.piece_type));
    s
}

/// The full name of a piece kind, such as `General`.
pub fn piece_type_name(t: PieceType) -> (r: String)
    ensures
        r@ == piece_type_text(t),
{
    match t {
        PieceType::General => String::from_str("General"),
        PieceType::Advisor => String::from_str("Advisor"),
        PieceType::Soldier => String::from_str("Soldier"),
        PieceType::Cannon => String::from_str("Cannon"),
        PieceType::Horse => String::from_str("Horse"),
        PieceType::Chariot => String::from_str("Chariot"),
        PieceType::Elephant => String::from_str("Elephant"),
    }
}

/// What the board view shows for one square.
pub fn slot_label(s: &Slot) -> (r: String)
    ensures
        r@ == slot_text(*s),
{
    match s {
        Slot::Empty => String::from_str("Empty"),
        Slot::Hidden => String::from_str("Hidden"),
        Slot::Revealed(p) => get_piece_short_name(p),
    }
}

/// What the game position offers the front end: the squares, whose turn it
/// is, the counters, the captured and still face-down pieces of each side,
/// the legal-action mask, the named bitboards, the hit points and the
/// board variant.
pub struct EnvSnapshot {
    pub board: Vec<Slot>,
    pub current_player: Player,
    pub move_counter: usize,
    pub total_steps: usize,
    pub dead_red: Vec<PieceType>,
    pub dead_black: Vec<PieceType>,
    pub hidden_red: Vec<PieceType>,
    pub hidden_black: Vec<PieceType>,
    pub action_masks: Vec<i32>,
    /// The named bitboards, one entry per name (they come from a map).
    pub bitboards: Vec<(String, Vec<bool>)>,
    pub hp_red: i32,
    pub hp_black: i32,
    pub variant: String,
}

/// Each bitboard name occurs once.
pub open spec fn distinct_names(b: Seq<(String, Vec<bool>)>) -> bool {
    forall|i: int, j: int| 0 <= i < j < b.len() ==> (#[trigger] b[i]).0@ != (#[trigger] b[j]).0@
}

/// The state the front end draws.
pub struct GameState {
    pub board: Vec<String>,
    pub current_player: String,
    pub move_counter: usize,
    pub total_step_counter: usize,
    pub dead_red: Vec<String>,
    pub dead_black: Vec<String>,
    pub hidden_red: Vec<String>,
    pub hidden_black: Vec<String>,
    pub action_masks: Vec<i32>,
    /// The named bitboards, one entry per name.
    pub bitboards: Vec<(String, Vec<bool>)>,
    pub hp_red: i32,
    pub hp_black: i32,
    pub variant: String,
}

/// The answer to a move: the new state, whether the game ended or was cut
/// off, and the winner if there is one.
pub struct StepResult {
    pub state: GameState,
    pub terminated: bool,
    pub truncated: bool,
    pub winner: Option<i32>,
}

/// `names` are the full names of the piece kinds `kinds`, in order.
pub open spec fn names_of_kinds(names: Seq<String>, kinds: Seq<PieceType>) -> bool {
    &&& names.len() == kinds.len()
    &&& forall|i: int| 0 <= i < kinds.len() ==> (#[trigger] names[i])@ == piece_type_text(kinds[i])
}

/// `labels` are the square labels of `slots`, in order.
pub open spec fn labels_of_slots(labels: Seq<String>, slots: Seq<Slot>) -> bool {
    &&& labels.len() == slots.len()
    &&& forall|i: int| 0 <= i < slots.len() ==> (#[trigger] labels[i])@ == slot_text(slots[i])
}

/// The shown state of a position: each field is the label form of the
/// snapshot's field.
pub open spec fn shows(st: GameState, env: EnvSnapshot) -> bool {
    &&& labels_of_slots(st.board@, env.board@)
    &&& st.current_player@ == player_text(env.current_player)
    &&& st.move_counter == env.move_counter
    &&& st.total_step_counter == env.total_steps
    &&& names_of_kinds(st.dead_red@, env.dead_red@)
    &&& names_of_kinds(st.dead_black@, env.dead_black@)
    &&& names_of_kinds(st.hidden_red@, env.hidden_red@)
    &&& names_of_kinds(st.hidden_black@, env.hidden_black@)
    &&& st.action_masks@ == env.action_masks@
    &&& st.bitboards == env.bitboards
    &&& st.hp_red == env.hp_red
    &&& st.hp_black == env.hp_black
    &&& st.variant == env.variant
}

/// Two shown states of one position agree field by field (compared by
/// their text): asking again for the state of an unchanged game gives the
/// same state.
pub proof fn lemma_shown_state_determined(a: GameState, b: GameState, env: EnvSnapshot)
    requires
        shows(a, env),
        shows(b, env),
    ensures
        a.board@.len() == b.board@.len(),
        forall|i: int| 0 <= i < a.board@.len() ==> (#[trigger] a.board@[i])@ == b.board@[i]@,
        a.current_player@ == b.current_player@,
        a.move_counter == b.move_counter,
        a.total_step_counter == b.total_step_counter,
        a.dead_red@.len() == b.dead_red@.len(),
        forall|i: int| 0 <= i < a.dead_red@.len() ==> (#[trigger] a.dead_red@[i])@ == b.dead_red@[i]@,
        a.dead_black@.len() == b.dead_black@.len(),
        forall|i: int|
            0 <= i < a.dead_black@.len() ==> (#[trigger] a.dead_black@[i])@ == b.dead_black@[i]@,
        a.hidden_red@.len() == b.hidden_red@.len(),
        forall|i: int|
            0 <= i < a.hidden_red@.len() ==> (#[trigger] a.hidden_red@[i])@ == b.hidden_red@[i]@,
        a.hidden_black@.len() == b.hidden_black@.len(),
        forall|i: int|
            0 <= i < a.hidden_black@.len() ==> (#[trigger] a.hidden_black@[i])@ == b.hidden_black@[i]@,
        a.action_masks@ == b.action_masks@,
        a.bitboards == b.bitboards,
        a.hp_red == b.hp_red,
        a.hp_black == b.hp_black,
        a.variant == b.variant,
{
}

fn kind_names(kinds: &Vec<PieceType>) -> (names: Vec<String>)
    ensures
        names_of_kinds(names@, kinds@),
{
    let mut names: Vec<String> = Vec::new();
    let mut i: usize = 0;
    while i < kinds.len()
        invariant
            0 <= i <= kinds@.len(),
            names@.len() == i,
            forall|j: int| 0 <= j < i ==> (#[trigger] names@[j])@ == piece_type_text(kinds@[j]),
        decreases kinds@.len() - i,
    {
        names.push(piece_type_name(kinds[i]));
        i = i + 1;
    }
    names
}

fn board_labels(slots: &Vec<Slot>) -> (labels: Vec<String>)
    ensures
        labels_of_slots(labels@, slots@),
{
    let mut labels: Vec<String> = Vec::new();
    let mut i: usize = 0;
    while i < slots.len()
        invariant
            0 <= i <= slots@.len(),
            labels@.len() == i,
            forall|j: int| 0 <= j < i ==> (#[trigger] labels@[j])@ == slot_text(slots@[j]),
        decreases slots@.len() - i,
    {
        labels.push(slot_label(&slots[i]));
        i = i + 1;
    }
    labels
}

/// The state that the front end draws for a position.
pub fn extract_game_state(env: EnvSnapshot) -> (st: GameState)
    ensures
        shows(st, env),
        distinct_names(env.bitboards@) ==> distinct_names(st.bitboards@),
{
    let board = board_labels(&env.board);
    let current_player = player_label(env.current_player);
    let dead_red = kind_names(&env.dead_red);
    let dead_black = kind_names(&env.dead_black);
    let hidden_red = kind_names(&env.hidden_red);
    let hidden_black = kind_names(&env.hidden_black);
    GameState {
        board,
        current_player,
        move_counter: env.move_counter,
        total_step_counter: env.total_steps,
        dead_red,
        dead_black,
        hidden_red,
        hidden_black,
        action_masks: env.action_masks,
        bitboards: env.bitboards,
        hp_red: env.hp_red,
        hp_black: env.hp_black,
        variant: env.variant,
    }
}

} // verus!
