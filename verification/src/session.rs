//! The session behind the desktop commands: the chosen opponent, the search
//! settings, which models are loaded, which search policies are live and
//! whether a search tree is kept for browsing. Every command is a transition
//! of this state, written once as a spec function and once as code.

use vstd::prelude::*;
use vstd::string::StringExecFns;

use crate::models::Capabilities;
use crate::state::OpponentType;
use crate::text::{decimal, decimal_text};

verus! {

/// The plain-value picture of a session.
pub struct SessionModel {
    pub opponent_type: OpponentType,
    pub engine_budget: u64,
    pub mcts_num_simulations: usize,
    pub nnue_depth: i32,
    pub nnue_budget: u64,
    pub capabilities: Capabilities,
    /// The NNUE feature dimension of the board variant being played.
    pub game_feature_dim: usize,
    pub torch_model_loaded: bool,
    pub onnx_model_loaded: bool,
    /// The feature dimension of the loaded NNUE evaluator, if one is loaded.
    pub nnue_feature_dim: Option<usize>,
    /// The simulation count of the live MCTS+DL policy, if there is one.
    pub torch_policy: Option<usize>,
    /// The simulation count of the live MCTS+ONNX policy, if there is one.
    pub onnx_policy: Option<usize>,
    /// Whether a search tree is kept for browsing.
    pub has_tree: bool,
}

impl SessionModel {
    /// What every session keeps: positive search settings, models only for
    /// back ends that were built in, and a live policy only for the matching
    /// opponent with its model loaded, running the current simulation count.
    pub open spec fn wf(self) -> bool {
        &&& self.mcts_num_simulations > 0
        &&& self.engine_budget > 0
        &&& self.nnue_depth > 0
        &&& self.nnue_budget > 0
        &&& self.torch_model_loaded ==> self.capabilities.torch
        &&& self.onnx_model_loaded ==> self.capabilities.onnx
        &&& self.torch_policy is Some ==> {
            &&& self.opponent_type == OpponentType::MctsDL
            &&& self.torch_model_loaded
            &&& self.torch_policy == Some(self.mcts_num_simulations)
        }
        &&& self.onnx_policy is Some ==> {
            &&& self.opponent_type == OpponentType::MctsOnnx
            &&& self.onnx_model_loaded
            &&& self.onnx_policy == Some(self.mcts_num_simulations)
        }
    }
}

/// The inference back end of an MCTS search.
#[derive(Clone, Copy, PartialEq, Eq, Structural, Debug)]
pub enum MctsBackend {
    Torch,
    Onnx,
}

/// An MCTS search to run: its back end and its simulation count.
#[derive(Clone, Copy, PartialEq, Eq, Structural, Debug)]
pub struct MctsPlan {
    pub backend: MctsBackend,
    pub simulations: usize,
}

/// The search that answers a computer move.
#[derive(Clone, Copy, PartialEq, Eq, Structural, Debug)]
pub enum BotPlan {
    /// Expectimax with this node budget.
    Engine { node_budget: u64 },
    /// Expectimax with the NNUE evaluator, this depth and node budget.
    Nnue { max_depth: i32, node_budget: u64 },
    /// Gumbel MCTS, keeping its tree for browsing.
    Mcts(MctsPlan),
    /// The reveal-first policy.
    RevealFirst,
    /// The random policy.
    Random,
}

/// A result with its error message taken as text.
pub open spec fn res_view<T>(r: Result<T, String>) -> Result<T, Seq<char>> {
    match r {
        Ok(v) => Ok(v),
        Err(e) => Err(e@),
    }
}

pub open spec fn msg_local_game() -> Seq<char> {
    "当前为本地双人模式，无需 AI 行动"@
}

pub open spec fn msg_no_nnue() -> Seq<char> {
    "未加载 .nnue 模型，无法执行 NNUE 策略"@
}

pub open spec fn msg_nnue_dim(model_dim: nat, game_dim: nat) -> Seq<char> {
    ".nnue 特征维度("@ + decimal(model_dim) + ")与当前变体("@ + decimal(game_dim)
        + ")不匹配，请切换变体或重新加载模型"@
}

pub open spec fn msg_torch_off() -> Seq<char> {
    "MctsDL 需要启用 torch 特性"@
}

pub open spec fn msg_onnx_off() -> Seq<char> {
    "MctsOnnx 需要启用 onnx 特性"@
}

pub open spec fn msg_bot_no_torch_model() -> Seq<char> {
    "未加载模型，无法执行 MCTS+DL 策略"@
}

pub open spec fn msg_bot_no_onnx_model() -> Seq<char> {
    "未加载 ONNX 模型，无法执行 MCTS+ONNX 策略"@
}

pub open spec fn msg_no_move() -> Seq<char> {
    "AI 无棋可走"@
}

pub open spec fn msg_search_no_torch_model() -> Seq<char> {
    "未加载 .pt 模型，无法执行 MCTS+DL 搜索"@
}

pub open spec fn msg_search_no_onnx_model() -> Seq<char> {
    "未加载 .onnx 模型，无法执行 MCTS+ONNX 搜索"@
}

pub open spec fn msg_search_wrong_opponent() -> Seq<char> {
    "MCTS 树可视化仅支持 MctsDL / MctsOnnx 对手"@
}

pub open spec fn msg_zero_iterations() -> Seq<char> {
    "搜索次数必须大于 0"@
}

pub open spec fn msg_zero_budget() -> Seq<char> {
    "节点预算必须大于 0"@
}

pub open spec fn msg_bad_depth() -> Seq<char> {
    "搜索深度必须大于 0"@
}

pub open spec fn msg_no_tree_root() -> Seq<char> {
    "暂无 MCTS 搜索树：请先让 MctsDL / MctsOnnx 对手走一步，或在搜索树面板手动搜索"@
}

pub open spec fn msg_no_tree() -> Seq<char> {
    "暂无 MCTS 搜索树"@
}

pub open spec fn msg_torch_loaded(path: Seq<char>) -> Seq<char> {
    "模型已加载: "@ + path
}

pub open spec fn msg_onnx_loaded(path: Seq<char>) -> Seq<char> {
    "ONNX 模型已加载: "@ + path
}

pub open spec fn msg_nnue_loaded(path: Seq<char>) -> Seq<char> {
    "NNUE 模型已加载: "@ + path
}

/// A simulation count of at least one.
pub open spec fn at_least_one(n: usize) -> usize {
    if n == 0 {
        1
    } else {
        n
    }
}

/// The session that the program starts with: a two-player game, an engine
/// budget of 300000 nodes, 200 MCTS simulations, NNUE depth 8 and budget
/// 200000 nodes, no model, no policy, no tree.
pub open spec fn spec_new(capabilities: Capabilities, game_feature_dim: usize) -> SessionModel {
    SessionModel {
        opponent_type: OpponentType::PvP,
        engine_budget: 300_000,
        mcts_num_simulations: 200,
        nnue_depth: 8,
        nnue_budget: 200_000,
        capabilities,
        game_feature_dim,
        torch_model_loaded: false,
        onnx_model_loaded: false,
        nnue_feature_dim: None,
        torch_policy: None,
        onnx_policy: None,
        has_tree: false,
    }
}

/// A new game against `opp` on a board whose NNUE feature dimension is
/// `dim`: the NNUE evaluator is dropped when the NNUE opponent is chosen and
/// it does not fit the board, the tree is dropped, and a policy is live only
/// for the chosen MCTS opponent with its back end built in and its model
/// loaded.
pub open spec fn spec_reset(m: SessionModel, opp: OpponentType, dim: usize) -> SessionModel {
    SessionModel {
        opponent_type: opp,
        game_feature_dim: dim,
        nnue_feature_dim: if opp == OpponentType::Nnue && m.nnue_feature_dim != Some(dim) {
            None
        } else {
            m.nnue_feature_dim
        },
        torch_policy: if m.capabilities.torch && opp == OpponentType::MctsDL
            && m.torch_model_loaded {
            Some(m.mcts_num_simulations)
        } else {
            None
        },
        onnx_policy: if m.capabilities.onnx && opp == OpponentType::MctsOnnx
            && m.onnx_model_loaded {
            Some(m.mcts_num_simulations)
        } else {
            None
        },
        has_tree: false,
        ..m
    }
}

/// A new simulation count, which the live policies take over.
pub open spec fn spec_with_iterations(m: SessionModel, iters: usize) -> SessionModel {
    SessionModel {
        mcts_num_simulations: iters,
        torch_policy: match m.torch_policy {
            Some(_) => Some(iters),
            None => None,
        },
        onnx_policy: match m.onnx_policy {
            Some(_) => Some(iters),
            None => None,
        },
        ..m
    }
}

/// The search that the current opponent runs for a computer move, or why
/// there is none.
pub open spec fn spec_plan_bot_move(m: SessionModel) -> Result<BotPlan, Seq<char>> {
    match m.opponent_type {
        OpponentType::PvP => Err(msg_local_game()),
        OpponentType::Engine => Ok(BotPlan::Engine { node_budget: m.engine_budget }),
        OpponentType::Nnue => match m.nnue_feature_dim {
            None => Err(msg_no_nnue()),
            Some(d) => if d != m.game_feature_dim {
                Err(msg_nnue_dim(d as nat, m.game_feature_dim as nat))
            } else {
                Ok(BotPlan::Nnue { max_depth: m.nnue_depth, node_budget: m.nnue_budget })
            },
        },
        OpponentType::MctsDL => if !m.capabilities.torch {
            Err(msg_torch_off())
        } else if !m.torch_model_loaded {
            Err(msg_bot_no_torch_model())
        } else {
            Ok(
                BotPlan::Mcts(
                    MctsPlan {
                        backend: MctsBackend::Torch,
                        simulations: at_least_one(m.mcts_num_simulations),
                    },
                ),
            )
        },
        OpponentType::MctsOnnx => if !m.capabilities.onnx {
            Err(msg_onnx_off())
        } else if !m.onnx_model_loaded {
            Err(msg_bot_no_onnx_model())
        } else {
            Ok(
                BotPlan::Mcts(
                    MctsPlan {
                        backend: MctsBackend::Onnx,
                        simulations: at_least_one(m.mcts_num_simulations),
                    },
                ),
            )
        },
        OpponentType::RevealFirst => Ok(BotPlan::RevealFirst),
        OpponentType::Random => Ok(BotPlan::Random),
    }
}

/// The search that a browsing request runs, or why there is none.
pub open spec fn spec_plan_mcts_search(m: SessionModel) -> Result<MctsPlan, Seq<char>> {
    match m.opponent_type {
        OpponentType::MctsDL => if !m.capabilities.torch {
            Err(msg_torch_off())
        } else if !m.torch_model_loaded {
            Err(msg_search_no_torch_model())
        } else {
            Ok(
                MctsPlan {
                    backend: MctsBackend::Torch,
                    simulations: at_least_one(m.mcts_num_simulations),
                },
            )
        },
        OpponentType::MctsOnnx => if !m.capabilities.onnx {
            Err(msg_onnx_off())
        } else if !m.onnx_model_loaded {
            Err(msg_search_no_onnx_model())
        } else {
            Ok(
                MctsPlan {
                    backend: MctsBackend::Onnx,
                    simulations: at_least_one(m.mcts_num_simulations),
                },
            )
        },
        _ => Err(msg_search_wrong_opponent()),
    }
}

/// The session after a computer move's search chose `chosen`: with no move
/// nothing changes; otherwise a tree is kept exactly when the search was an
/// MCTS search.
pub open spec fn spec_complete_bot_move(
    m: SessionModel,
    plan: BotPlan,
    chosen: Option<usize>,
) -> SessionModel {
    match chosen {
        None => m,
        Some(_) => SessionModel { has_tree: plan is Mcts, ..m },
    }
}

/// The session after a TorchScript model was loaded.
pub open spec fn spec_attach_torch(m: SessionModel) -> SessionModel {
    SessionModel {
        torch_model_loaded: true,
        torch_policy: if m.opponent_type == OpponentType::MctsDL {
            Some(m.mcts_num_simulations)
        } else {
            m.torch_policy
        },
        ..m
    }
}

/// The session after an ONNX model was loaded.
pub open spec fn spec_attach_onnx(m: SessionModel) -> SessionModel {
    SessionModel {
        onnx_model_loaded: true,
        onnx_policy: if m.opponent_type == OpponentType::MctsOnnx {
            Some(m.mcts_num_simulations)
        } else {
            m.onnx_policy
        },
        ..m
    }
}

/// The session state behind the commands.
pub struct Session {
    opponent_type: OpponentType,
    engine_budget: u64,
    mcts_num_simulations: usize,
    nnue_depth: i32,
    nnue_budget: u64,
    capabilities: Capabilities,
    game_feature_dim: usize,
    torch_model_loaded: bool,
    onnx_model_loaded: bool,
    nnue_feature_dim: Option<usize>,
    torch_policy: Option<usize>,
    onnx_policy: Option<usize>,
    has_tree: bool,
}

impl View for Session {
    type V = SessionModel;

    closed spec fn view(&self) -> SessionModel {
        SessionModel {
            opponent_type: self.opponent_type,
            engine_budget: self.engine_budget,
            mcts_num_simulations: self.mcts_num_simulations,
            nnue_depth: self.nnue_depth,
            nnue_budget: self.nnue_budget,
            capabilities: self.capabilities,
            game_feature_dim: self.game_feature_dim,
            torch_model_loaded: self.torch_model_loaded,
            onnx_model_loaded: self.onnx_model_loaded,
            nnue_feature_dim: self.nnue_feature_dim,
            torch_policy: self.torch_policy,
            onnx_policy: self.onnx_policy,
            has_tree: self.has_tree,
        }
    }
}

fn owned(s: &str) -> (r: String)
    ensures
        r@ == s@,
{
    String::from_str(s)
}

impl Session {
    #[verifier::type_invariant]
    spec fn inv(self) -> bool {
        self@.wf()
    }


    /// The session that the program starts with (see `spec_new`).
    pub fn new(capabilities: Capabilities, game_feature_dim: usize) -> (s: Session)
        ensures
            s@ == spec_new(capabilities, game_feature_dim),
            s@.wf(),
    {
        Session {
            opponent_type: OpponentType::PvP,
            engine_budget: 300_000,
            mcts_num_simulations: 200,
            nnue_depth: 8,
            nnue_budget: 200_000,
            capabilities,
            game_feature_dim,
            torch_model_loaded: false,
            onnx_model_loaded: false,
            nnue_feature_dim: None,
            torch_policy: None,
            onnx_policy: None,
            has_tree: false,
        }
    }

    /// Starts a new game against `opponent` on a board whose NNUE feature
    /// dimension is `game_feature_dim` (see `spec_reset`).
    pub fn reset(&mut self, opponent: OpponentType, game_feature_dim: usize)
        ensures
            final(self)@ == spec_reset(old(self)@, opponent, game_feature_dim),
            final(self)@.wf(),
    {
        proof {
            use_type_invariant(&*self);
        }
        let keep_nnue = match self.nnue_feature_dim {
            Some(d) => opponent != OpponentType::Nnue || d == game_feature_dim,
            None => true,
        };
        let nnue_feature_dim = if keep_nnue {
            self.nnue_feature_dim
        } else {
            None
        };
        let torch_policy = if self.capabilities.torch && opponent == OpponentType::MctsDL
            && self.torch_model_loaded {
            Some(self.mcts_num_simulations)
        } else {
            None
        };
        let onnx_policy = if self.capabilities.onnx && opponent == OpponentType::MctsOnnx
            && self.onnx_model_loaded {
            Some(self.mcts_num_simulations)
        } else {
            None
        };
        *self = Session {
            opponent_type: opponent,
            engine_budget: self.engine_budget,
            mcts_num_simulations: self.mcts_num_simulations,
            nnue_depth: self.nnue_depth,
            nnue_budget: self.nnue_budget,
            capabilities: self.capabilities,
            game_feature_dim,
            torch_model_loaded: self.torch_model_loaded,
            onnx_model_loaded: self.onnx_model_loaded,
            nnue_feature_dim,
            torch_policy,
            onnx_policy,
            has_tree: false,
        };
    }

    /// Sets the MCTS simulation count; zero is refused and changes nothing.
    /// Live policies take over the new count.
    pub fn set_mcts_iterations(&mut self, iters: usize) -> (r: Result<usize, String>)
        ensures
            iters == 0 ==> res_view(r) == Err::<usize, Seq<char>>(msg_zero_iterations())
                && final(self)@ == old(self)@,
            iters > 0 ==> r == Ok::<usize, String>(iters) && final(self)@ == spec_with_iterations(
                old(self)@,
                iters,
            ),
            final(self)@.wf(),
    {
        proof {
            use_type_invariant(&*self);
        }
        if iters == 0 {
            return Err(owned("搜索次数必须大于 0"));
        }
        let torch_policy = match self.torch_policy {
            Some(_) => Some(iters),
            None => None,
        };
        let onnx_policy = match self.onnx_policy {
            Some(_) => Some(iters),
            None => None,
        };
        *self = Session {
            opponent_type: self.opponent_type,
            engine_budget: self.engine_budget,
            mcts_num_simulations: iters,
            nnue_depth: self.nnue_depth,
            nnue_budget: self.nnue_budget,
            capabilities: self.capabilities,
            game_feature_dim: self.game_feature_dim,
            torch_model_loaded: self.torch_model_loaded,
            onnx_model_loaded: self.onnx_model_loaded,
            nnue_feature_dim: self.nnue_feature_dim,
            torch_policy,
            onnx_policy,
            has_tree: self.has_tree,
        };
        Ok(self.mcts_num_simulations)
    }

    /// Sets the engine's node budget; zero is refused and changes nothing.
    pub fn set_engine_budget(&mut self, budget: u64) -> (r: Result<u64, String>)
        ensures
            budget == 0 ==> res_view(r) == Err::<u64, Seq<char>>(msg_zero_budget())
                && final(self)@ == old(self)@,
            budget > 0 ==> r == Ok::<u64, String>(budget) && final(self)@ == (SessionModel {
                engine_budget: budget,
                ..old(self)@
            }),
            final(self)@.wf(),
    {
        proof {
            use_type_invariant(&*self);
        }
        if budget == 0 {
            return Err(owned("节点预算必须大于 0"));
        }
        self.engine_budget = budget;
        Ok(self.engine_budget)
    }

    /// Sets the NNUE search depth; a depth below one is refused and changes
    /// nothing.
    pub fn set_nnue_depth(&mut self, depth: i32) -> (r: Result<i32, String>)
        ensures
            depth <= 0 ==> res_view(r) == Err::<i32, Seq<char>>(msg_bad_depth())
                && final(self)@ == old(self)@,
            depth > 0 ==> r == Ok::<i32, String>(depth) && final(self)@ == (SessionModel {
                nnue_depth: depth,
                ..old(self)@
            }),
            final(self)@.wf(),
    {
        proof {
            use_type_invariant(&*self);
        }
        if depth <= 0 {
            return Err(owned("搜索深度必须大于 0"));
        }
        self.nnue_depth = depth;
        Ok(self.nnue_depth)
    }

    /// Sets the NNUE search's node budget; zero is refused and changes
    /// nothing.
    pub fn set_nnue_budget(&mut self, budget: u64) -> (r: Result<u64, String>)
        ensures
            budget == 0 ==> res_view(r) == Err::<u64, Seq<char>>(msg_zero_budget())
                && final(self)@ == old(self)@,
            budget > 0 ==> r == Ok::<u64, String>(budget) && final(self)@ == (SessionModel {
                nnue_budget: budget,
                ..old(self)@
            }),
            final(self)@.wf(),
    {
        proof {
            use_type_invariant(&*self);
        }
        if budget == 0 {
            return Err(owned("节点预算必须大于 0"));
        }
        self.nnue_budget = budget;
        Ok(self.nnue_budget)
    }

    /// Decides which search answers a computer move (see
    /// `spec_plan_bot_move`).
    pub fn plan_bot_move(&self) -> (r: Result<BotPlan, String>)
        ensures
            res_view(r) == spec_plan_bot_move(self@),
    {
        let sims = if self.mcts_num_simulations == 0 {
            1
        } else {
            self.mcts_num_simulations
        };
        match self.opponent_type {
            OpponentType::PvP => Err(owned("当前为本地双人模式，无需 AI 行动")),
            OpponentType::Engine => Ok(BotPlan::Engine { node_budget: self.engine_budget }),
            OpponentType::Nnue => match self.nnue_feature_dim {
                None => Err(owned("未加载 .nnue 模型，无法执行 NNUE 策略")),
                Some(d) => {
                    if d != self.game_feature_dim {
                        let mut m = owned(".nnue 特征维度(");
                        let a = decimal_text(d);
                        m.append(a.as_str());
                        m.append(")与当前变体(");
                        let b = decimal_text(self.game_feature_dim);
                        m.append(b.as_str());
                        m.append(")不匹配，请切换变体或重新加载模型");
                        Err(m)
                    } else {
                        Ok(BotPlan::Nnue { max_depth: self.nnue_depth, node_budget: self.nnue_budget })
                    }
                },
            },
            OpponentType::MctsDL => {
                if !self.capabilities.torch {
                    Err(owned("MctsDL 需要启用 torch 特性"))
                } else if !self.torch_model_loaded {
                    Err(owned("未加载模型，无法执行 MCTS+DL 策略"))
                } else {
                    Ok(BotPlan::Mcts(MctsPlan { backend: MctsBackend::Torch, simulations: sims }))
                }
            },
            OpponentType::MctsOnnx => {
                if !self.capabilities.onnx {
                    Err(owned("MctsOnnx 需要启用 onnx 特性"))
                } else if !self.onnx_model_loaded {
                    Err(owned("未加载 ONNX 模型，无法执行 MCTS+ONNX 策略"))
                } else {
                    Ok(BotPlan::Mcts(MctsPlan { backend: MctsBackend::Onnx, simulations: sims }))
                }
            },
            OpponentType::RevealFirst => Ok(BotPlan::RevealFirst),
            OpponentType::Random => Ok(BotPlan::Random),
        }
    }

    /// Takes the move that the search of `plan` chose: with none, the move
    /// fails with "no move" and nothing changes; otherwise the session keeps
    /// a tree exactly when the search was an MCTS search.
    pub fn complete_bot_move(&mut self, plan: &BotPlan, chosen: Option<usize>) -> (r: Result<
        usize,
        String,
    >)
        ensures
            final(self)@ == spec_complete_bot_move(old(self)@, *plan, chosen),
            match chosen {
                Some(a) => r == Ok::<usize, String>(a),
                None => res_view(r) == Err::<usize, Seq<char>>(msg_no_move()),
            },
            final(self)@.wf(),
    {
        proof {
            use_type_invariant(&*self);
        }
        match chosen {
            None => Err(owned("AI 无棋可走")),
            Some(a) => {
                self.has_tree = match plan {
                    BotPlan::Mcts(_) => true,
                    _ => false,
                };
                Ok(a)
            },
        }
    }

    /// Decides the MCTS search that a browsing request runs (see
    /// `spec_plan_mcts_search`).
    pub fn plan_mcts_search(&self) -> (r: Result<MctsPlan, String>)
        ensures
            res_view(r) == spec_plan_mcts_search(self@),
    {
        let sims = if self.mcts_num_simulations == 0 {
            1
        } else {
            self.mcts_num_simulations
        };
        match self.opponent_type {
            OpponentType::MctsDL => {
                if !self.capabilities.torch {
                    Err(owned("MctsDL 需要启用 torch 特性"))
                } else if !self.torch_model_loaded {
                    Err(owned("未加载 .pt 模型，无法执行 MCTS+DL 搜索"))
                } else {
                    Ok(MctsPlan { backend: MctsBackend::Torch, simulations: sims })
                }
            },
            OpponentType::MctsOnnx => {
                if !self.capabilities.onnx {
                    Err(owned("MctsOnnx 需要启用 onnx 特性"))
                } else if !self.onnx_model_loaded {
                    Err(owned("未加载 .onnx 模型，无法执行 MCTS+ONNX 搜索"))
                } else {
                    Ok(MctsPlan { backend: MctsBackend::Onnx, simulations: sims })
                }
            },
            _ => Err(owned("MCTS 树可视化仅支持 MctsDL / MctsOnnx 对手")),
        }
    }

    /// A browsing search finished: its tree is kept.
    pub fn keep_search_tree(&mut self)
        ensures
            final(self)@ == (SessionModel { has_tree: true, ..old(self)@ }),
            final(self)@.wf(),
    {
        proof {
            use_type_invariant(&*self);
        }
        self.has_tree = true;
    }

    /// Whether the root of the kept tree can be shown; without a tree the
    /// message invites a search.
    pub fn check_tree_root(&self) -> (r: Result<(), String>)
        ensures
            self@.has_tree ==> r is Ok,
            !self@.has_tree ==> res_view(r) == Err::<(), Seq<char>>(msg_no_tree_root()),
    {
        if self.has_tree {
            Ok(())
        } else {
            Err(owned("暂无 MCTS 搜索树：请先让 MctsDL / MctsOnnx 对手走一步，或在搜索树面板手动搜索"))
        }
    }

    /// Whether a node of the kept tree can be shown.
    pub fn check_tree(&self) -> (r: Result<(), String>)
        ensures
            self@.has_tree ==> r is Ok,
            !self@.has_tree ==> res_view(r) == Err::<(), Seq<char>>(msg_no_tree()),
    {
        if self.has_tree {
            Ok(())
        } else {
            Err(owned("暂无 MCTS 搜索树"))
        }
    }

    /// A TorchScript model from `path` was loaded; the MCTS+DL opponent gets
    /// a live policy. Only a build with the torch back end loads one.
    pub fn attach_torch_model(&mut self, path: &str) -> (msg: String)
        requires
            old(self)@.capabilities.torch,
        ensures
            final(self)@ == spec_attach_torch(old(self)@),
            msg@ == msg_torch_loaded(path@),
            final(self)@.wf(),
    {
        proof {
            use_type_invariant(&*self);
        }
        let torch_policy = if self.opponent_type == OpponentType::MctsDL {
            Some(self.mcts_num_simulations)
        } else {
            self.torch_policy
        };
        *self = Session {
            opponent_type: self.opponent_type,
            engine_budget: self.engine_budget,
            mcts_num_simulations: self.mcts_num_simulations,
            nnue_depth: self.nnue_depth,
            nnue_budget: self.nnue_budget,
            capabilities: self.capabilities,
            game_feature_dim: self.game_feature_dim,
            torch_model_loaded: true,
            onnx_model_loaded: self.onnx_model_loaded,
            nnue_feature_dim: self.nnue_feature_dim,
            torch_policy,
            onnx_policy: self.onnx_policy,
            has_tree: self.has_tree,
        };
        let mut m = owned("模型已加载: ");
        m.append(path);
        m
    }

    /// An ONNX model from `path` was loaded and passed its probe; the
    /// MCTS+ONNX opponent gets a live policy. Only a build with the ONNX
    /// back end loads one.
    pub fn attach_onnx_model(&mut self, path: &str) -> (msg: String)
        requires
            old(self)@.capabilities.onnx,
        ensures
            final(self)@ == spec_attach_onnx(old(self)@),
            msg@ == msg_onnx_loaded(path@),
            final(self)@.wf(),
    {
        proof {
            use_type_invariant(&*self);
        }
        let onnx_policy = if self.opponent_type == OpponentType::MctsOnnx {
            Some(self.mcts_num_simulations)
        } else {
            self.onnx_policy
        };
        *self = Session {
            opponent_type: self.opponent_type,
            engine_budget: self.engine_budget,
            mcts_num_simulations: self.mcts_num_simulations,
            nnue_depth: self.nnue_depth,
            nnue_budget: self.nnue_budget,
            capabilities: self.capabilities,
            game_feature_dim: self.game_feature_dim,
            torch_model_loaded: self.torch_model_loaded,
            onnx_model_loaded: true,
            nnue_feature_dim: self.nnue_feature_dim,
            torch_policy: self.torch_policy,
            onnx_policy,
            has_tree: self.has_tree,
        };
        let mut m = owned("ONNX 模型已加载: ");
        m.append(path);
        m
    }

    /// An NNUE evaluator with this feature dimension was loaded from `path`
    /// and passed its check against the current board.
    pub fn attach_nnue_evaluator(&mut self, feature_dim: usize, path: &str) -> (msg: String)
        ensures
            final(self)@ == (SessionModel { nnue_feature_dim: Some(feature_dim), ..old(self)@ }),
            msg@ == msg_nnue_loaded(path@),
            final(self)@.wf(),
    {
        proof {
            use_type_invariant(&*self);
        }
        self.nnue_feature_dim = Some(feature_dim);
        let mut m = owned("NNUE 模型已加载: ");
        m.append(path);
        m
    }

    /// The chosen opponent.
    pub fn opponent_type(&self) -> (r: OpponentType)
        ensures
            r == self@.opponent_type,
    {
        self.opponent_type
    }

    /// The engine's node budget.
    pub fn engine_budget(&self) -> (r: u64)
        ensures
            r == self@.engine_budget,
    {
        self.engine_budget
    }

    /// The MCTS simulation count.
    pub fn mcts_num_simulations(&self) -> (r: usize)
        ensures
            r == self@.mcts_num_simulations,
    {
        self.mcts_num_simulations
    }

    /// The NNUE search depth.
    pub fn nnue_depth(&self) -> (r: i32)
        ensures
            r == self@.nnue_depth,
    {
        self.nnue_depth
    }

    /// The NNUE search's node budget.
    pub fn nnue_budget(&self) -> (r: u64)
        ensures
            r == self@.nnue_budget,
    {
        self.nnue_budget
    }

    /// The back ends built in.
    pub fn capabilities(&self) -> (r: Capabilities)
        ensures
            r == self@.capabilities,
    {
        self.capabilities
    }

    /// The NNUE feature dimension of the board being played.
    pub fn game_feature_dim(&self) -> (r: usize)
        ensures
            r == self@.game_feature_dim,
    {
        self.game_feature_dim
    }

    /// Whether a TorchScript model is loaded.
    pub fn has_torch_model(&self) -> (r: bool)
        ensures
            r == self@.torch_model_loaded,
    {
        self.torch_model_loaded
    }

    /// Whether an ONNX model is loaded.
    pub fn has_onnx_model(&self) -> (r: bool)
        ensures
            r == self@.onnx_model_loaded,
    {
        self.onnx_model_loaded
    }

    /// The feature dimension of the loaded NNUE evaluator, if any.
    pub fn nnue_feature_dim(&self) -> (r: Option<usize>)
        ensures
            r == self@.nnue_feature_dim,
    {
        self.nnue_feature_dim
    }

    /// The simulation count of the live MCTS+DL policy, if any.
    pub fn torch_policy(&self) -> (r: Option<usize>)
        ensures
            r == self@.torch_policy,
    {
        self.torch_policy
    }

    /// The simulation count of the live MCTS+ONNX policy, if any.
    pub fn onnx_policy(&self) -> (r: Option<usize>)
        ensures
            r == self@.onnx_policy,
    {
        self.onnx_policy
    }

    /// Whether a search tree is kept for browsing.
    pub fn has_tree(&self) -> (r: bool)
        ensures
            r == self@.has_tree,
    {
        self.has_tree
    }
}

/// A new game against the NNUE opponent never meets an evaluator that does
/// not fit the board: a computer move then either searches with the NNUE
/// evaluator or reports that none is loaded.
pub proof fn lemma_nnue_reset_fits_board(m: SessionModel, dim: usize)
    ensures
        spec_plan_bot_move(spec_reset(m, OpponentType::Nnue, dim)) == Err::<BotPlan, Seq<char>>(
            msg_no_nnue(),
        ) || spec_plan_bot_move(spec_reset(m, OpponentType::Nnue, dim)) is Ok,
{
}

/// Starting the same new game twice is the same as starting it once.
pub proof fn lemma_reset_idempotent(m: SessionModel, opp: OpponentType, dim: usize)
    requires
        m.wf(),
    ensures
        spec_reset(spec_reset(m, opp, dim), opp, dim) == spec_reset(m, opp, dim),
{
}

/// Every transition keeps the session invariant.
pub proof fn lemma_transitions_keep_wf(
    m: SessionModel,
    opp: OpponentType,
    dim: usize,
    iters: usize,
    plan: BotPlan,
    chosen: Option<usize>,
)
    requires
        m.wf(),
    ensures
        spec_reset(m, opp, dim).wf(),
        iters > 0 ==> spec_with_iterations(m, iters).wf(),
        spec_complete_bot_move(m, plan, chosen).wf(),
        m.capabilities.torch ==> spec_attach_torch(m).wf(),
        m.capabilities.onnx ==> spec_attach_onnx(m).wf(),
{
}

/// The settings reach the searches: after the simulation count is set to
/// `iters`, the MCTS searches run `iters` simulations, and the live policies
/// too; after the engine budget is set, the engine searches with it; after
/// the NNUE depth and budget are set, the NNUE search uses them.
pub proof fn lemma_settings_reach_searches(m: SessionModel, iters: usize, budget: u64, depth: i32)
    requires
        m.wf(),
        iters > 0,
        budget > 0,
        depth > 0,
    ensures
        spec_plan_bot_move(spec_with_iterations(m, iters)) matches Ok(BotPlan::Mcts(p))
            ==> p.simulations == iters,
        spec_plan_mcts_search(spec_with_iterations(m, iters)) matches Ok(p) ==> p.simulations
            == iters,
        spec_with_iterations(m, iters).torch_policy matches Some(n) ==> n == iters,
        spec_with_iterations(m, iters).onnx_policy matches Some(n) ==> n == iters,
        spec_plan_bot_move(SessionModel { engine_budget: budget, ..m }) matches Ok(
            BotPlan::Engine { node_budget },
        ) ==> node_budget == budget,
        spec_plan_bot_move(SessionModel { nnue_depth: depth, nnue_budget: budget, ..m }) matches Ok(
            BotPlan::Nnue { max_depth, node_budget },
        ) ==> max_depth == depth && node_budget == budget,
{
}

/// The computer only moves for a computer opponent, and the search it runs
/// is the one of the chosen opponent.
pub proof fn lemma_plan_matches_opponent(m: SessionModel)
    ensures
        m.opponent_type == OpponentType::PvP ==> spec_plan_bot_move(m) is Err,
        spec_plan_bot_move(m) matches Ok(BotPlan::Engine { .. }) ==> m.opponent_type
            == OpponentType::Engine,
        spec_plan_bot_move(m) matches Ok(BotPlan::Nnue { .. }) ==> m.opponent_type
            == OpponentType::Nnue,
        spec_plan_bot_move(m) matches Ok(BotPlan::Mcts(p)) ==> (p.backend == MctsBackend::Torch
            <==> m.opponent_type == OpponentType::MctsDL),
        spec_plan_bot_move(m) matches Ok(BotPlan::Mcts(_)) ==> spec_plan_mcts_search(m) is Ok,
{
}

/// Every opponent that is ready to move gets its own search: the engine its
/// node budget, the NNUE opponent (with an evaluator that fits the board)
/// its depth and budget, each MCTS opponent (back end built in, model
/// loaded) an MCTS search on its own back end with the current simulation
/// count, and the two simple policies themselves. Conversely a plan is
/// only ever the chosen opponent's, and an MCTS plan runs the current
/// simulation count.
pub proof fn lemma_ready_opponent_gets_its_search(m: SessionModel)
    requires
        m.wf(),
    ensures
        m.opponent_type == OpponentType::Engine ==> spec_plan_bot_move(m) == Ok::<
            BotPlan,
            Seq<char>,
        >(BotPlan::Engine { node_budget: m.engine_budget }),
        m.opponent_type == OpponentType::Nnue && m.nnue_feature_dim == Some(m.game_feature_dim)
            ==> spec_plan_bot_move(m) == Ok::<BotPlan, Seq<char>>(
            BotPlan::Nnue { max_depth: m.nnue_depth, node_budget: m.nnue_budget },
        ),
        m.opponent_type == OpponentType::MctsDL && m.capabilities.torch && m.torch_model_loaded
            ==> spec_plan_bot_move(m) == Ok::<BotPlan, Seq<char>>(
            BotPlan::Mcts(
                MctsPlan { backend: MctsBackend::Torch, simulations: m.mcts_num_simulations },
            ),
        ),
        m.opponent_type == OpponentType::MctsOnnx && m.capabilities.onnx && m.onnx_model_loaded
            ==> spec_plan_bot_move(m) == Ok::<BotPlan, Seq<char>>(
            BotPlan::Mcts(
                MctsPlan { backend: MctsBackend::Onnx, simulations: m.mcts_num_simulations },
            ),
        ),
        m.opponent_type == OpponentType::RevealFirst ==> spec_plan_bot_move(m) == Ok::<
            BotPlan,
            Seq<char>,
        >(BotPlan::RevealFirst),
        m.opponent_type == OpponentType::Random ==> spec_plan_bot_move(m) == Ok::<
            BotPlan,
            Seq<char>,
        >(BotPlan::Random),
        spec_plan_bot_move(m) == Ok::<BotPlan, Seq<char>>(BotPlan::RevealFirst) ==> m.opponent_type
            == OpponentType::RevealFirst,
        spec_plan_bot_move(m) == Ok::<BotPlan, Seq<char>>(BotPlan::Random) ==> m.opponent_type
            == OpponentType::Random,
        spec_plan_bot_move(m) matches Ok(BotPlan::Mcts(p)) ==> {
            &&& p.simulations == m.mcts_num_simulations
            &&& (p.backend == MctsBackend::Torch) == (m.opponent_type == OpponentType::MctsDL)
            &&& (p.backend == MctsBackend::Onnx) == (m.opponent_type == OpponentType::MctsOnnx)
        },
{
}

/// A browsing search runs on the chosen MCTS opponent's back end: the
/// TorchScript one exactly for the MCTS+DL opponent and the ONNX one exactly
/// for the MCTS+ONNX opponent, with the current simulation count; when that
/// opponent is ready, the search is always planned; other opponents get none.
pub proof fn lemma_browsing_search_backend(m: SessionModel)
    requires
        m.wf(),
    ensures
        spec_plan_mcts_search(m) matches Ok(p) ==> {
            &&& p.simulations == m.mcts_num_simulations
            &&& (p.backend == MctsBackend::Torch) == (m.opponent_type == OpponentType::MctsDL)
            &&& (p.backend == MctsBackend::Onnx) == (m.opponent_type == OpponentType::MctsOnnx)
        },
        m.opponent_type == OpponentType::MctsDL && m.capabilities.torch && m.torch_model_loaded
            ==> spec_plan_mcts_search(m) == Ok::<MctsPlan, Seq<char>>(
            MctsPlan { backend: MctsBackend::Torch, simulations: m.mcts_num_simulations },
        ),
        m.opponent_type == OpponentType::MctsOnnx && m.capabilities.onnx && m.onnx_model_loaded
            ==> spec_plan_mcts_search(m) == Ok::<MctsPlan, Seq<char>>(
            MctsPlan { backend: MctsBackend::Onnx, simulations: m.mcts_num_simulations },
        ),
        m.opponent_type != OpponentType::MctsDL && m.opponent_type != OpponentType::MctsOnnx
            ==> spec_plan_mcts_search(m) is Err,
{
}

/// A new game never keeps a search tree, whoever the opponent, and it is
/// played against the chosen opponent on the given board; the search
/// settings and the loaded models stay as they were.
pub proof fn lemma_new_game_drops_tree(m: SessionModel, opp: OpponentType, dim: usize)
    ensures
        !spec_reset(m, opp, dim).has_tree,
        spec_reset(m, opp, dim).opponent_type == opp,
        spec_reset(m, opp, dim).game_feature_dim == dim,
        spec_reset(m, opp, dim).mcts_num_simulations == m.mcts_num_simulations,
        spec_reset(m, opp, dim).engine_budget == m.engine_budget,
        spec_reset(m, opp, dim).nnue_depth == m.nnue_depth,
        spec_reset(m, opp, dim).nnue_budget == m.nnue_budget,
        spec_reset(m, opp, dim).torch_model_loaded == m.torch_model_loaded,
        spec_reset(m, opp, dim).onnx_model_loaded == m.onnx_model_loaded,
        spec_reset(m, opp, dim).capabilities == m.capabilities,
{
}

} // verus!
