use banqi_tauri::models::Capabilities;
use banqi_tauri::session::{BotPlan, MctsBackend, MctsPlan, Session};
use banqi_tauri::state::OpponentType;

fn full() -> Capabilities {
    Capabilities::new(true, true)
}

#[test]
fn new_session_defaults() {
    let s = Session::new(full(), 448);
    assert_eq!(s.opponent_type(), OpponentType::PvP);
    assert_eq!(s.engine_budget(), 300_000);
    assert_eq!(s.mcts_num_simulations(), 200);
    assert_eq!(s.nnue_depth(), 8);
    assert_eq!(s.nnue_budget(), 200_000);
    assert_eq!(s.game_feature_dim(), 448);
    assert!(!s.has_torch_model());
    assert!(!s.has_onnx_model());
    assert_eq!(s.nnue_feature_dim(), None);
    assert_eq!(s.torch_policy(), None);
    assert_eq!(s.onnx_policy(), None);
    assert!(!s.has_tree());
    assert_eq!(s.capabilities(), full());
}

#[test]
fn set_mcts_iterations_accepts_and_refuses() {
    let mut s = Session::new(full(), 448);
    assert_eq!(s.set_mcts_iterations(0), Err("搜索次数必须大于 0".to_string()));
    assert_eq!(s.mcts_num_simulations(), 200);
    assert_eq!(s.set_mcts_iterations(64), Ok(64));
    assert_eq!(s.mcts_num_simulations(), 64);
}

#[test]
fn set_mcts_iterations_updates_live_policy() {
    let mut s = Session::new(full(), 448);
    s.attach_torch_model("a.pt");
    s.reset(OpponentType::MctsDL, 448);
    assert_eq!(s.torch_policy(), Some(200));
    assert_eq!(s.set_mcts_iterations(32), Ok(32));
    assert_eq!(s.torch_policy(), Some(32));
    assert_eq!(s.onnx_policy(), None);
}

#[test]
fn budget_and_depth_setters() {
    let mut s = Session::new(full(), 448);
    assert_eq!(s.set_engine_budget(0), Err("节点预算必须大于 0".to_string()));
    assert_eq!(s.engine_budget(), 300_000);
    assert_eq!(s.set_engine_budget(5), Ok(5));
    assert_eq!(s.engine_budget(), 5);
    assert_eq!(s.set_nnue_depth(0), Err("搜索深度必须大于 0".to_string()));
    assert_eq!(s.set_nnue_depth(-3), Err("搜索深度必须大于 0".to_string()));
    assert_eq!(s.nnue_depth(), 8);
    assert_eq!(s.set_nnue_depth(12), Ok(12));
    assert_eq!(s.nnue_depth(), 12);
    assert_eq!(s.set_nnue_budget(0), Err("节点预算必须大于 0".to_string()));
    assert_eq!(s.nnue_budget(), 200_000);
    assert_eq!(s.set_nnue_budget(9), Ok(9));
    assert_eq!(s.nnue_budget(), 9);
}

#[test]
fn pvp_has_no_computer_move() {
    let s = Session::new(full(), 448);
    assert_eq!(s.plan_bot_move(), Err("当前为本地双人模式，无需 AI 行动".to_string()));
}

#[test]
fn engine_and_simple_opponents_plan() {
    let mut s = Session::new(full(), 448);
    s.reset(OpponentType::Engine, 448);
    assert_eq!(s.plan_bot_move(), Ok(BotPlan::Engine { node_budget: 300_000 }));
    s.reset(OpponentType::Random, 448);
    assert_eq!(s.plan_bot_move(), Ok(BotPlan::Random));
    s.reset(OpponentType::RevealFirst, 448);
    assert_eq!(s.plan_bot_move(), Ok(BotPlan::RevealFirst));
}

#[test]
fn nnue_opponent_needs_a_fitting_evaluator() {
    let mut s = Session::new(full(), 448);
    s.reset(OpponentType::Nnue, 448);
    assert_eq!(s.plan_bot_move(), Err("未加载 .nnue 模型，无法执行 NNUE 策略".to_string()));
    let msg = s.attach_nnue_evaluator(448, "/m/x.nnue");
    assert_eq!(msg, "NNUE 模型已加载: /m/x.nnue");
    assert_eq!(s.plan_bot_move(), Ok(BotPlan::Nnue { max_depth: 8, node_budget: 200_000 }));
    // an evaluator for another board is refused at move time
    s.attach_nnue_evaluator(96, "/m/y.nnue");
    assert_eq!(
        s.plan_bot_move(),
        Err(".nnue 特征维度(96)与当前变体(448)不匹配，请切换变体或重新加载模型".to_string())
    );
}

#[test]
fn reset_to_nnue_drops_unfitting_evaluator() {
    let mut s = Session::new(full(), 448);
    s.attach_nnue_evaluator(448, "x.nnue");
    s.reset(OpponentType::Nnue, 96);
    assert_eq!(s.nnue_feature_dim(), None);
    assert_eq!(s.plan_bot_move(), Err("未加载 .nnue 模型，无法执行 NNUE 策略".to_string()));
}

#[test]
fn reset_to_nnue_keeps_fitting_evaluator() {
    let mut s = Session::new(full(), 448);
    s.attach_nnue_evaluator(96, "x.nnue");
    s.reset(OpponentType::Nnue, 96);
    assert_eq!(s.nnue_feature_dim(), Some(96));
    assert!(s.plan_bot_move().is_ok());
}

#[test]
fn reset_to_other_opponent_keeps_any_evaluator() {
    let mut s = Session::new(full(), 448);
    s.attach_nnue_evaluator(448, "x.nnue");
    s.reset(OpponentType::Random, 96);
    assert_eq!(s.nnue_feature_dim(), Some(448));
}

#[test]
fn reset_twice_is_reset_once() {
    let mut a = Session::new(full(), 448);
    a.attach_nnue_evaluator(448, "x.nnue");
    a.attach_onnx_model("m.onnx");
    let mut b = Session::new(full(), 448);
    b.attach_nnue_evaluator(448, "x.nnue");
    b.attach_onnx_model("m.onnx");
    a.reset(OpponentType::MctsOnnx, 96);
    b.reset(OpponentType::MctsOnnx, 96);
    b.reset(OpponentType::MctsOnnx, 96);
    assert_eq!(a.opponent_type(), b.opponent_type());
    assert_eq!(a.nnue_feature_dim(), b.nnue_feature_dim());
    assert_eq!(a.onnx_policy(), b.onnx_policy());
    assert_eq!(a.torch_policy(), b.torch_policy());
    assert_eq!(a.has_tree(), b.has_tree());
    assert_eq!(a.game_feature_dim(), b.game_feature_dim());
}

#[test]
fn mcts_opponents_without_backend_or_model() {
    let mut s = Session::new(Capabilities::new(false, false), 448);
    s.reset(OpponentType::MctsDL, 448);
    assert_eq!(s.plan_bot_move(), Err("MctsDL 需要启用 torch 特性".to_string()));
    assert_eq!(s.plan_mcts_search(), Err("MctsDL 需要启用 torch 特性".to_string()));
    s.reset(OpponentType::MctsOnnx, 448);
    assert_eq!(s.plan_bot_move(), Err("MctsOnnx 需要启用 onnx 特性".to_string()));
    assert_eq!(s.plan_mcts_search(), Err("MctsOnnx 需要启用 onnx 特性".to_string()));

    let mut t = Session::new(full(), 448);
    t.reset(OpponentType::MctsDL, 448);
    assert_eq!(t.plan_bot_move(), Err("未加载模型，无法执行 MCTS+DL 策略".to_string()));
    assert_eq!(t.plan_mcts_search(), Err("未加载 .pt 模型，无法执行 MCTS+DL 搜索".to_string()));
    t.reset(OpponentType::MctsOnnx, 448);
    assert_eq!(t.plan_bot_move(), Err("未加载 ONNX 模型，无法执行 MCTS+ONNX 策略".to_string()));
    assert_eq!(t.plan_mcts_search(), Err("未加载 .onnx 模型，无法执行 MCTS+ONNX 搜索".to_string()));
}

#[test]
fn browsing_search_only_for_mcts_opponents() {
    let mut s = Session::new(full(), 448);
    s.reset(OpponentType::Engine, 448);
    assert_eq!(s.plan_mcts_search(), Err("MCTS 树可视化仅支持 MctsDL / MctsOnnx 对手".to_string()));
}

#[test]
fn mcts_opponent_with_model_keeps_tree() {
    let mut s = Session::new(full(), 448);
    assert_eq!(s.attach_onnx_model("/m/a.onnx"), "ONNX 模型已加载: /m/a.onnx");
    assert_eq!(s.onnx_policy(), None);
    s.reset(OpponentType::MctsOnnx, 448);
    assert_eq!(s.onnx_policy(), Some(200));
    assert_eq!(s.set_mcts_iterations(50), Ok(50));
    let plan = s.plan_bot_move().unwrap();
    assert_eq!(plan, BotPlan::Mcts(MctsPlan { backend: MctsBackend::Onnx, simulations: 50 }));
    assert_eq!(s.complete_bot_move(&plan, Some(17)), Ok(17));
    assert!(s.has_tree());
    assert_eq!(s.check_tree(), Ok(()));
    assert_eq!(s.check_tree_root(), Ok(()));
    // a new game drops the tree
    s.reset(OpponentType::MctsOnnx, 448);
    assert!(!s.has_tree());
}

#[test]
fn torch_model_loaded_while_mcts_dl_chosen() {
    let mut s = Session::new(full(), 448);
    s.reset(OpponentType::MctsDL, 448);
    assert_eq!(s.torch_policy(), None);
    assert_eq!(s.attach_torch_model("/m/a.pt"), "模型已加载: /m/a.pt");
    assert_eq!(s.torch_policy(), Some(200));
    assert_eq!(
        s.plan_mcts_search(),
        Ok(MctsPlan { backend: MctsBackend::Torch, simulations: 200 })
    );
    s.keep_search_tree();
    assert!(s.has_tree());
}

#[test]
fn no_move_leaves_session_unchanged() {
    let mut s = Session::new(full(), 448);
    s.reset(OpponentType::Random, 448);
    s.keep_search_tree();
    assert_eq!(s.complete_bot_move(&BotPlan::Random, None), Err("AI 无棋可走".to_string()));
    assert!(s.has_tree());
    assert_eq!(s.complete_bot_move(&BotPlan::Random, Some(3)), Ok(3));
    assert!(!s.has_tree());
}

#[test]
fn tree_queries_without_tree() {
    let s = Session::new(full(), 448);
    assert_eq!(
        s.check_tree_root(),
        Err("暂无 MCTS 搜索树：请先让 MctsDL / MctsOnnx 对手走一步，或在搜索树面板手动搜索".to_string())
    );
    assert_eq!(s.check_tree(), Err("暂无 MCTS 搜索树".to_string()));
}

#[test]
fn settings_reach_the_searches() {
    let mut s = Session::new(full(), 448);
    s.set_engine_budget(1234).unwrap();
    s.reset(OpponentType::Engine, 448);
    assert_eq!(s.plan_bot_move(), Ok(BotPlan::Engine { node_budget: 1234 }));
    s.set_nnue_depth(3).unwrap();
    s.set_nnue_budget(77).unwrap();
    s.attach_nnue_evaluator(448, "e.nnue");
    s.reset(OpponentType::Nnue, 448);
    assert_eq!(s.plan_bot_move(), Ok(BotPlan::Nnue { max_depth: 3, node_budget: 77 }));
}
