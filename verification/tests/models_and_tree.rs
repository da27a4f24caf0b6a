use banqi_tauri::mcts::{node_without_position, rank_edges, reaching_action, EdgeRank};
use banqi_tauri::models::{
    choose_loader, choose_loader_for_extension, is_model_extension, models_dir, nnue_dim_note,
    probe_mismatch_message, sort_models, within_scan_depth, Capabilities, ModelEntry, ModelKind,
    ModelList,
};

fn entry(name: &str, path: &str) -> ModelEntry {
    ModelEntry { name: name.to_string(), path: path.to_string() }
}

#[test]
fn models_dir_under_home() {
    let d = models_dir("/home/u");
    assert!(d.ends_with("banqi-models"));
    assert_eq!(std::path::PathBuf::from(&d), std::path::Path::new("/home/u").join("banqi-models"));
}

#[test]
fn models_dir_edge_bases() {
    assert_eq!(models_dir(""), "banqi-models");
    assert_eq!(models_dir("/home/u/"), "/home/u/banqi-models");
    assert_eq!(models_dir("rel"), "rel/banqi-models");
}

#[test]
fn loader_reads_the_file_name_extension() {
    let caps = Capabilities::new(true, true);
    // the extension is taken from the file name, not from a folder
    assert_eq!(choose_loader(caps, "/x.onnx/m"), Ok(ModelKind::Torch));
    // a leading dot alone is no extension
    assert_eq!(choose_loader(caps, "/x/.nnue"), Ok(ModelKind::Torch));
    assert_eq!(choose_loader(caps, "/x/a.b.nnue"), Ok(ModelKind::Nnue));
    assert_eq!(choose_loader(caps, "m.onnx"), Ok(ModelKind::Onnx));
}

#[test]
fn model_extensions() {
    assert!(is_model_extension(Some("pt")));
    assert!(is_model_extension(Some("onnx")));
    assert!(is_model_extension(Some("nnue")));
    assert!(!is_model_extension(Some("PT")));
    assert!(!is_model_extension(Some("txt")));
    assert!(!is_model_extension(None));
}

#[test]
fn scan_depth_limit() {
    assert!(within_scan_depth(0));
    assert!(within_scan_depth(4));
    assert!(!within_scan_depth(5));
}

#[test]
fn models_sorted_by_path() {
    let models = vec![
        entry("b.onnx", "/m/b.onnx"),
        entry("a.pt", "/m/sub/a.pt"),
        entry("a.nnue", "/m/a.nnue"),
    ];
    let sorted = sort_models(&models);
    let paths: Vec<&str> = sorted.iter().map(|e| e.path.as_str()).collect();
    assert_eq!(paths, vec!["/m/a.nnue", "/m/b.onnx", "/m/sub/a.pt"]);
    let list = ModelList::new("/m".to_string(), models);
    assert_eq!(list.dir, "/m");
    let names: Vec<&str> = list.models.iter().map(|e| e.name.as_str()).collect();
    assert_eq!(names, vec!["a.nnue", "b.onnx", "a.pt"]);
}

#[test]
fn equal_paths_keep_their_order() {
    let models = vec![entry("first", "/m/x"), entry("z", "/m/a"), entry("second", "/m/x")];
    let sorted = sort_models(&models);
    let names: Vec<&str> = sorted.iter().map(|e| e.name.as_str()).collect();
    assert_eq!(names, vec!["z", "first", "second"]);
}

#[test]
fn sort_agrees_with_std_order() {
    let paths = ["/m/é.pt", "/m/e.pt", "/m/E.pt", "/m/ab", "/m/a", "/m/", "/m/中.onnx", "/m/z"];
    let models: Vec<ModelEntry> = paths.iter().map(|p| entry(p, p)).collect();
    let sorted = sort_models(&models);
    let mut expected: Vec<&str> = paths.to_vec();
    expected.sort();
    let got: Vec<&str> = sorted.iter().map(|e| e.path.as_str()).collect();
    assert_eq!(got, expected);
}

#[test]
fn loader_by_extension_with_backends() {
    let caps = Capabilities::new(true, true);
    assert_eq!(choose_loader_for_extension(caps, "m.onnx", Some("onnx")), Ok(ModelKind::Onnx));
    assert_eq!(choose_loader_for_extension(caps, "m.ONNX", Some("ONNX")), Ok(ModelKind::Onnx));
    assert_eq!(choose_loader_for_extension(caps, "m.NnUe", Some("NnUe")), Ok(ModelKind::Nnue));
    assert_eq!(choose_loader_for_extension(caps, "m.pt", Some("pt")), Ok(ModelKind::Torch));
    assert_eq!(choose_loader_for_extension(caps, "m", None), Ok(ModelKind::Torch));
    assert_eq!(choose_loader(caps, "/x/m.Onnx"), Ok(ModelKind::Onnx));
    assert_eq!(choose_loader(caps, "/x/m.nnue"), Ok(ModelKind::Nnue));
    assert_eq!(choose_loader(caps, "/x/m.bin"), Ok(ModelKind::Torch));
}

#[test]
fn loader_with_one_backend_missing() {
    let only_torch = Capabilities::new(true, false);
    assert_eq!(
        choose_loader(only_torch, "/x/m.onnx"),
        Err("需要启用 onnx 特性才能加载 ONNX 模型（/x/m.onnx）".to_string())
    );
    let only_onnx = Capabilities::new(false, true);
    assert_eq!(
        choose_loader(only_onnx, "/x/m.pt"),
        Err("需要启用 torch 特性才能加载 TorchScript 模型（/x/m.pt）".to_string())
    );
    assert_eq!(choose_loader(only_onnx, "/x/m.nnue"), Ok(ModelKind::Nnue));
}

#[test]
fn loader_without_backends() {
    let none = Capabilities::new(false, false);
    assert_eq!(choose_loader(none, "/x/m.nnue"), Ok(ModelKind::Nnue));
    assert_eq!(choose_loader(none, "/x/m.NNUE"), Ok(ModelKind::Nnue));
    assert_eq!(choose_loader(none, "/x/m.NnUe"), Ok(ModelKind::Nnue));
    assert_eq!(
        choose_loader(none, "/x/m.pt"),
        Err("需要启用 torch 或 onnx 特性才能加载该模型".to_string())
    );
    assert_eq!(
        choose_loader(none, "/x/m"),
        Err("需要启用 torch 或 onnx 特性才能加载该模型".to_string())
    );
    assert_eq!(
        choose_loader(none, "/x/m.onnx"),
        Err("需要启用 torch 或 onnx 特性才能加载该模型".to_string())
    );
}

#[test]
fn load_messages() {
    assert_eq!(
        probe_mismatch_message(14, 4, 8, 5, "bad shape"),
        "模型与当前变体不匹配（当前观测 14x4x8 / 标量 5）: bad shape"
    );
    assert_eq!(
        nnue_dim_note("dim 96 != 448", 448),
        "dim 96 != 448（当前变体维度 448，请先选择匹配变体再加载）"
    );
}

#[test]
fn edges_ranked_by_visits_then_prior_stably() {
    let ranks = vec![
        EdgeRank { visits: 3, prior_key: 10 },
        EdgeRank { visits: 9, prior_key: -5 },
        EdgeRank { visits: 3, prior_key: 20 },
        EdgeRank { visits: 3, prior_key: 10 },
        EdgeRank { visits: 0, prior_key: 99 },
    ];
    assert_eq!(rank_edges(&ranks), vec![1, 2, 0, 3, 4]);
    assert_eq!(rank_edges(&Vec::new()), Vec::<usize>::new());
}

#[test]
fn edges_ranked_like_a_stable_sort() {
    let ranks: Vec<EdgeRank> = (0..40u32)
        .map(|i| EdgeRank { visits: (i * 7) % 5, prior_key: ((i * 13) % 4) as i64 - 2 })
        .collect();
    let mut expected: Vec<usize> = (0..ranks.len()).collect();
    expected.sort_by(|a, b| {
        ranks[*b].visits.cmp(&ranks[*a].visits).then(ranks[*b].prior_key.cmp(&ranks[*a].prior_key))
    });
    assert_eq!(rank_edges(&ranks), expected);
}

#[test]
fn reaching_action_of_nodes() {
    assert_eq!(reaching_action(true, Some(4), Some(9)), Some(4));
    assert_eq!(reaching_action(true, None, Some(9)), Some(9));
    assert_eq!(reaching_action(false, Some(4), Some(9)), Some(9));
    assert_eq!(reaching_action(false, Some(4), None), None);
}

#[test]
fn node_without_position_message() {
    assert_eq!(node_without_position(42), "节点 42 未保存局面");
}
