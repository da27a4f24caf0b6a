use banqi_tauri::board::{Piece, PieceType, Player, Slot};
use banqi_tauri::state::{
    board_variant, extract_game_state, get_piece_short_name, piece_type_name, player_label,
    slot_label, EnvSnapshot, OpponentType, Variant,
};
use banqi_tauri::text::{ascii_lowercase_eq, decimal_text, text_eq};

const ALL_KINDS: [PieceType; 7] = [
    PieceType::General,
    PieceType::Advisor,
    PieceType::Soldier,
    PieceType::Cannon,
    PieceType::Horse,
    PieceType::Chariot,
    PieceType::Elephant,
];

#[test]
fn decimal_text_writes_numbers() {
    assert_eq!(decimal_text(0), "0");
    assert_eq!(decimal_text(7), "7");
    assert_eq!(decimal_text(10), "10");
    assert_eq!(decimal_text(300000), "300000");
    assert_eq!(decimal_text(usize::MAX), usize::MAX.to_string());
}

#[test]
fn text_comparisons() {
    assert!(text_eq("Nnue", "Nnue"));
    assert!(!text_eq("Nnue", "nnue"));
    assert!(!text_eq("Nnu", "Nnue"));
    assert!(ascii_lowercase_eq("ONNX", "onnx"));
    assert!(ascii_lowercase_eq("OnNx", "onnx"));
    assert!(!ascii_lowercase_eq("onnx2", "onnx"));
    assert!(ascii_lowercase_eq("", ""));
}

#[test]
fn player_labels() {
    assert_eq!(player_label(Player::Red), "Red");
    assert_eq!(player_label(Player::Black), "Black");
}

#[test]
fn short_names_of_all_pieces() {
    let codes = ["Gen", "Adv", "Sol", "Can", "Hor", "Car", "Ele"];
    let mut seen = std::collections::HashSet::new();
    for (kind, code) in ALL_KINDS.iter().zip(codes.iter()) {
        let red = get_piece_short_name(&Piece { player: Player::Red, piece_type: *kind });
        let black = get_piece_short_name(&Piece { player: Player::Black, piece_type: *kind });
        assert_eq!(red, format!("R_{}", code));
        assert_eq!(black, format!("B_{}", code));
        assert!(seen.insert(red));
        assert!(seen.insert(black));
    }
    assert_eq!(seen.len(), 14);
}

#[test]
fn piece_type_names_are_debug_names() {
    for kind in ALL_KINDS.iter() {
        assert_eq!(piece_type_name(*kind), format!("{:?}", kind));
    }
}

#[test]
fn slot_labels() {
    assert_eq!(slot_label(&Slot::Empty), "Empty");
    assert_eq!(slot_label(&Slot::Hidden), "Hidden");
    let p = Piece { player: Player::Black, piece_type: PieceType::Cannon };
    assert_eq!(slot_label(&Slot::Revealed(p)), "B_Can");
}

#[test]
fn opponent_names_parse() {
    assert_eq!(OpponentType::from_name(Some("Random")), OpponentType::Random);
    assert_eq!(OpponentType::from_name(Some("RevealFirst")), OpponentType::RevealFirst);
    assert_eq!(OpponentType::from_name(Some("Engine")), OpponentType::Engine);
    assert_eq!(OpponentType::from_name(Some("MctsDL")), OpponentType::MctsDL);
    assert_eq!(OpponentType::from_name(Some("MctsOnnx")), OpponentType::MctsOnnx);
    assert_eq!(OpponentType::from_name(Some("Nnue")), OpponentType::Nnue);
    assert_eq!(OpponentType::from_name(Some("PvP")), OpponentType::PvP);
    assert_eq!(OpponentType::from_name(Some("nnue")), OpponentType::PvP);
    assert_eq!(OpponentType::from_name(Some("")), OpponentType::PvP);
    assert_eq!(OpponentType::from_name(None), OpponentType::PvP);
}

#[test]
fn opponent_name_round_trip() {
    let all = [
        OpponentType::PvP,
        OpponentType::Random,
        OpponentType::RevealFirst,
        OpponentType::Engine,
        OpponentType::MctsDL,
        OpponentType::MctsOnnx,
        OpponentType::Nnue,
    ];
    for t in all.iter() {
        let name = format!("{:?}", t);
        assert_eq!(OpponentType::from_name(Some(name.as_str())), *t);
    }
}

#[test]
fn board_variant_defaults_to_standard() {
    assert_eq!(board_variant(None), Variant::DarkChess4x8);
    assert_eq!(board_variant(Some(Variant::DarkChess4x2)), Variant::DarkChess4x2);
    assert_eq!(board_variant(Some(Variant::DarkChess4x4)), Variant::DarkChess4x4);
    assert_eq!(board_variant(Some(Variant::DarkChess4x8)), Variant::DarkChess4x8);
}

#[test]
fn extract_game_state_labels_everything() {
    let red_gen = Piece { player: Player::Red, piece_type: PieceType::General };
    let env = EnvSnapshot {
        board: vec![Slot::Hidden, Slot::Empty, Slot::Revealed(red_gen)],
        current_player: Player::Black,
        move_counter: 3,
        total_steps: 11,
        dead_red: vec![PieceType::Soldier],
        dead_black: vec![],
        hidden_red: vec![PieceType::Horse, PieceType::Chariot],
        hidden_black: vec![PieceType::Elephant],
        action_masks: vec![1, 0, 1],
        bitboards: vec![("red_revealed".to_string(), vec![false, false, true])],
        hp_red: 30,
        hp_black: 29,
        variant: "4x8".to_string(),
    };
    let st = extract_game_state(env);
    assert_eq!(st.board, vec!["Hidden", "Empty", "R_Gen"]);
    assert_eq!(st.current_player, "Black");
    assert_eq!(st.move_counter, 3);
    assert_eq!(st.total_step_counter, 11);
    assert_eq!(st.dead_red, vec!["Soldier"]);
    assert!(st.dead_black.is_empty());
    assert_eq!(st.hidden_red, vec!["Horse", "Chariot"]);
    assert_eq!(st.hidden_black, vec!["Elephant"]);
    assert_eq!(st.action_masks, vec![1, 0, 1]);
    assert_eq!(st.bitboards, vec![("red_revealed".to_string(), vec![false, false, true])]);
    assert_eq!(st.hp_red, 30);
    assert_eq!(st.hp_black, 29);
    assert_eq!(st.variant, "4x8");
}
