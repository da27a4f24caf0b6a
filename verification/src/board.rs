//! The board as the front end sees it: sides, piece kinds, pieces and the
//! content of a square, with the names under which they are shown.

use vstd::prelude::*;

verus! {

/// One of the two sides.
#[derive(Clone, Copy, PartialEq, Eq, Structural, Debug)]
pub enum Player {
    Red,
    Black,
}

/// The seven kinds of piece.
#[derive(Clone, Copy, PartialEq, Eq, Structural, Debug)]
pub enum PieceType {
    General,
    Advisor,
    Soldier,
    Cannon,
    Horse,
    Chariot,
    Elephant,
}

/// A piece: its side and its kind.
#[derive(Clone, Copy, PartialEq, Eq, Structural, Debug)]
pub struct Piece {
    pub player: Player,
    pub piece_type: PieceType,
}

/// What a square holds: nothing, a face-down piece, or a revealed piece.
#[derive(Clone, Copy, PartialEq, Eq, Structural, Debug)]
pub enum Slot {
    Empty,
    Hidden,
    Revealed(Piece),
}

/// The name of a side: `Red` or `Black`.
pub open spec fn player_text(p: Player) -> Seq<char> {
    match p {
        Player::Red => "Red"@,
        Player::Black => "Black"@,
    }
}

/// The one-letter code of a side in a piece's short name.
pub open spec fn player_code(p: Player) -> Seq<char> {
    match p {
        Player::Red => "R"@,
        Player::Black => "B"@,
    }
}

/// The three-letter code of a piece kind in a piece's short name.
pub open spec fn piece_type_code(t: PieceType) -> Seq<char> {
    match t {
        PieceType::General => "Gen"@,
        PieceType::Advisor => "Adv"@,
        PieceType::Soldier => "Sol"@,
        PieceType::Cannon => "Can"@,
        PieceType::Horse => "Hor"@,
        PieceType::Chariot => "Car"@,
        PieceType::Elephant => "Ele"@,
    }
}

/// The full name of a piece kind, as its `Debug` form writes it.
pub open spec fn piece_type_text(t: PieceType) -> Seq<char> {
    match t {
        PieceType::General => "General"@,
        PieceType::Advisor => "Advisor"@,
        PieceType::Soldier => "Soldier"@,
        PieceType::Cannon => "Cannon"@,
        PieceType::Horse => "Horse"@,
        PieceType::Chariot => "Chariot"@,
        PieceType::Elephant => "Elephant"@,
    }
}

/// The short name of a piece: side code, `_`, kind code (such as `R_Gen`).
pub open spec fn piece_short_text(p: Piece) -> Seq<char> {
    player_code(p.player) + "_"@ + piece_type_code(p.piece_type)
}

/// What the board view shows for a square.
pub open spec fn slot_text(s: Slot) -> Seq<char> {
    match s {
        Slot::Empty => "Empty"@,
        Slot::Hidden => "Hidden"@,
        Slot::Revealed(p) => piece_short_text(p),
    }
}

proof fn reveal_code_literals()
    ensures
        "R"@ == seq!['R'],
        "B"@ == seq!['B'],
        "_"@ == seq!['_'],
        "Gen"@ == seq!['G', 'e', 'n'],
        "Adv"@ == seq!['A', 'd', 'v'],
        "Sol"@ == seq!['S', 'o', 'l'],
        "Can"@ == seq!['C', 'a', 'n'],
        "Hor"@ == seq!['H', 'o', 'r'],
        "Car"@ == seq!['C', 'a', 'r'],
        "Ele"@ == seq!['E', 'l', 'e'],
{
    reveal_strlit("R");
    reveal_strlit("B");
    reveal_strlit("_");
    reveal_strlit("Gen");
    reveal_strlit("Adv");
    reveal_strlit("Sol");
    reveal_strlit("Can");
    reveal_strlit("Hor");
    reveal_strlit("Car");
    reveal_strlit("Ele");
    assert("R"@ =~= seq!['R']);
    assert("B"@ =~= seq!['B']);
    assert("_"@ =~= seq!['_']);
    assert("Gen"@ =~= seq!['G', 'e', 'n']);
    assert("Adv"@ =~= seq!['A', 'd', 'v']);
    assert("Sol"@ =~= seq!['S', 'o', 'l']);
    assert("Can"@ =~= seq!['C', 'a', 'n']);
    assert("Hor"@ =~= seq!['H', 'o', 'r']);
    assert("Car"@ =~= seq!['C', 'a', 'r']);
    assert("Ele"@ =~= seq!['E', 'l', 'e']);
}

/// Distinct pieces have distinct short names, so the board view can read a
/// piece back from its name.
pub proof fn lemma_short_name_injective(a: Piece, b: Piece)
    requires
        piece_short_text(a) == piece_short_text(b),
    ensures
        a == b,
{
    reveal_code_literals();
    let sa = piece_short_text(a);
    let sb = piece_short_text(b);
    assert(sa.len() == 5);
    assert(sb.len() == 5);
    assert(sa[0] == sb[0]);
    assert(sa[2] == sb[2]);
    assert(sa[4] == sb[4]);
    assert(sa[0] == player_code(a.player)[0]);
    assert(sb[0] == player_code(b.player)[0]);
    assert(sa[2] == piece_type_code(a.piece_type)[0]);
    assert(sb[2] == piece_type_code(b.piece_type)[0]);
    assert(sa[4] == piece_type_code(a.piece_type)[2]);
    assert(sb[4] == piece_type_code(b.piece_type)[2]);
}

} // verus!
