//! Model catalogue: which inference back ends were built in, which files
//! count as models, where they live, and in which order they are listed.

use vstd::prelude::*;
use vstd::string::StrSliceExecFns;
use vstd::string::StringExecFns;

use crate::session::res_view;
use crate::text::{ascii_lowercase_eq, ascii_lowercase_is, decimal, decimal_text, text_eq};

verus! {

/// The inference back ends built into this program; the front end hides the
/// opponents and model files that need a missing one.
#[derive(Clone, Copy, PartialEq, Eq, Structural, Debug)]
pub struct Capabilities {
    pub torch: bool,
    pub onnx: bool,
}

impl Capabilities {
    /// The capabilities of a build with or without each back end.
    pub fn new(torch: bool, onnx: bool) -> (c: Capabilities)
        ensures
            c.torch == torch,
            c.onnx == onnx,
    {
        Capabilities { torch, onnx }
    }
}

/// The folder under the home directory that holds the models.
pub const MODELS_DIR_NAME: &'static str = "banqi-models";

/// How deep below the models folder the catalogue looks.
pub const MAX_SCAN_DEPTH: usize = 4;

/// A file name made only of ASCII letters, digits, `-` and `_`.
pub open spec fn plain_name(s: Seq<char>) -> bool {
    &&& s.len() > 0
    &&& forall|i: int|
        0 <= i < s.len() ==> {
            let c = #[trigger] s[i];
            ('a' <= c && c <= 'z') || ('A' <= c && c <= 'Z') || ('0' <= c && c <= '9') || c == '-'
                || c == '_'
        }
}

/// `s` ends with `suffix`.
pub open spec fn ends_with(s: Seq<char>, suffix: Seq<char>) -> bool {
    &&& suffix.len() <= s.len()
    &&& s.subrange(s.len() - suffix.len(), s.len() as int) == suffix
}

/// A base folder that every platform reads alike: no `:` (no drive
/// prefix) and not starting with two separators (`/` or `\`), so no UNC
/// or verbatim prefix.
pub open spec fn plain_base(base: Seq<char>) -> bool {
    &&& !base.contains(':')
    &&& !(base.len() >= 2 && (base[0] == '/' || base[0] == '\\') && (base[1] == '/' || base[1]
        == '\\'))
}

/// What joining the plain name `child` onto `base` gives: `child` itself
/// onto an empty base; the two texts run together when the base ends in
/// `/`; and the base, one separator (`/` or `\`, by platform) and the name
/// when the base ends in neither separator.
pub open spec fn joined(base: Seq<char>, child: Seq<char>, r: Seq<char>) -> bool {
    &&& base.len() == 0 ==> r == child
    &&& base.len() > 0 && plain_base(base) && base.last() == '/' ==> r == base + child
    &&& base.len() > 0 && plain_base(base) && base.last() != '/' && base.last() != '\\' ==> (r
        == base + seq!['/'] + child || r == base + seq!['\\'] + child)
}

/// Wraps `std::path::Path::join`, written back as text with
/// `to_string_lossy`. As `PathBuf::push` documents and does, a relative
/// name is appended to the base, with the platform's separator between them
/// unless the base is empty or already ends in a separator. The contract
/// states this for bases with no drive, UNC or verbatim prefix
/// (`plain_base`), whose handling differs on Windows; for every base it
/// claims that the result ends with the name. Which of the two separators
/// is used (it depends on the platform) is left open.
#[verifier::external_body]
fn join_path(base: &str, child: &str) -> (r: String)
    requires
        plain_name(child@),
    ensures
        ends_with(r@, child@),
        joined(base@, child@, r@),
{
    std::path::Path::new(base).join(child).to_string_lossy().into_owned()
}

/// The folder that holds the models: `banqi-models` under the home folder
/// (see `joined`).
pub fn models_dir(home: &str) -> (r: String)
    ensures
        ends_with(r@, MODELS_DIR_NAME@),
        joined(home@, MODELS_DIR_NAME@, r@),
{
    proof {
        reveal_strlit("banqi-models");
        assert(plain_name(MODELS_DIR_NAME@));
    }
    join_path(home, MODELS_DIR_NAME)
}

/// The extensions of model files: `pt`, `onnx` and `nnue`, in this case.
pub open spec fn is_model_ext(ext: Option<Seq<char>>) -> bool {
    match ext {
        Some(e) => e == "pt"@ || e == "onnx"@ || e == "nnue"@,
        None => false,
    }
}

/// Whether a file with this extension is a model.
pub fn is_model_extension(ext: Option<&str>) -> (r: bool)
    ensures
        r == is_model_ext(
            match ext {
                Some(e) => Some(e@),
                None => None,
            },
        ),
{
    match ext {
        Some(e) => text_eq(e, "pt") || text_eq(e, "onnx") || text_eq(e, "nnue"),
        None => false,
    }
}

/// Whether a folder this many levels below the models folder is searched.
pub fn within_scan_depth(depth: usize) -> (r: bool)
    ensures
        r == (depth <= MAX_SCAN_DEPTH),
{
    depth <= MAX_SCAN_DEPTH
}

/// A model file: its file name and its full path.
pub struct ModelEntry {
    pub name: String,
    pub path: String,
}

/// The model catalogue: the models folder and the models in it.
pub struct ModelList {
    pub dir: String,
    pub models: Vec<ModelEntry>,
}

/// Text order by character codes, as `str` compares (for UTF-8 text,
/// comparing bytes and comparing character codes agree).
pub open spec fn text_lt(a: Seq<char>, b: Seq<char>) -> bool
    decreases a.len(),
{
    if a.len() == 0 {
        b.len() > 0
    } else if b.len() == 0 {
        false
    } else if a[0] != b[0] {
        (a[0] as int) < (b[0] as int)
    } else {
        text_lt(a.drop_first(), b.drop_first())
    }
}

/// Text order is irreflexive.
pub proof fn lemma_text_lt_irreflexive(a: Seq<char>)
    ensures
        !text_lt(a, a),
    decreases a.len(),
{
    if a.len() > 0 {
        lemma_text_lt_irreflexive(a.drop_first());
    }
}

/// Text order is transitive.
pub proof fn lemma_text_lt_transitive(a: Seq<char>, b: Seq<char>, c: Seq<char>)
    requires
        text_lt(a, b),
        text_lt(b, c),
    ensures
        text_lt(a, c),
    decreases a.len(),
{
    if a.len() > 0 && b.len() > 0 && c.len() > 0 {
        if a[0] == b[0] && b[0] == c[0] {
            lemma_text_lt_transitive(a.drop_first(), b.drop_first(), c.drop_first());
        }
    }
}

/// Two different texts are ordered one way or the other.
pub proof fn lemma_text_lt_total(a: Seq<char>, b: Seq<char>)
    requires
        a != b,
    ensures
        text_lt(a, b) || text_lt(b, a),
    decreases a.len(),
{
    if a.len() == 0 {
        assert(b.len() > 0) by {
            if b.len() == 0 {
                assert(a =~= b);
            }
        }
    } else if b.len() == 0 {
    } else if a[0] != b[0] {
        assert((a[0] as int) != (b[0] as int));
    } else {
        if a.drop_first() == b.drop_first() {
            assert(a =~= seq![a[0]] + a.drop_first());
            assert(b =~= seq![b[0]] + b.drop_first());
        } else {
            lemma_text_lt_total(a.drop_first(), b.drop_first());
        }
    }
}

/// Whether `a` comes before `b` in text order.
pub fn text_less(a: &str, b: &str) -> (r: bool)
    ensures
        r == text_lt(a@, b@),
{
    let na = a.unicode_len();
    let nb = b.unicode_len();
    let mut i: usize = 0;
    proof {
        assert(a@.skip(0) =~= a@);
        assert(b@.skip(0) =~= b@);
    }
    while i < na && i < nb
        invariant
            na == a@.len(),
            nb == b@.len(),
            0 <= i <= na,
            i <= nb,
            text_lt(a@, b@) == text_lt(a@.skip(i as int), b@.skip(i as int)),
        decreases na - i,
    {
        let ca = a.get_char(i);
        let cb = b.get_char(i);
        if ca != cb {
            return ca < cb;
        }
        proof {
            assert(a@.skip(i as int).drop_first() =~= a@.skip(i + 1));
            assert(b@.skip(i as int).drop_first() =~= b@.skip(i + 1));
        }
        i = i + 1;
    }
    i < nb
}

/// Model `a` is listed before model `b`: by path, and among equal paths the
/// one that came first.
pub open spec fn path_before(m: Seq<ModelEntry>, a: int, b: int) -> bool {
    ||| text_lt(m[a].path@, m[b].path@)
    ||| m[a].path@ == m[b].path@ && a < b
}

/// `order` lists every model of `m` once, in path order.
pub open spec fn is_path_order(m: Seq<ModelEntry>, order: Seq<usize>) -> bool {
    &&& order.len() == m.len()
    &&& forall|i: int| 0 <= i < order.len() ==> (#[trigger] order[i]) < m.len()
    &&& forall|x: usize| x < m.len() ==> #[trigger] order.contains(x)
    &&& forall|i: int, j: int|
        0 <= i < j < order.len() ==> path_before(m, #[trigger] order[i] as int, #[trigger] order[j] as int)
}

/// `listed` is `models` sorted by path, models with equal paths keeping
/// their order.
pub open spec fn sorted_by_path(models: Seq<ModelEntry>, listed: Seq<ModelEntry>) -> bool {
    exists|order: Seq<usize>|
        {
            &&& is_path_order(models, order)
            &&& listed.len() == order.len()
            &&& forall|i: int| 0 <= i < listed.len() ==> #[trigger] listed[i] == models[order[i] as int]
        }
}

proof fn lemma_path_before_transitive(m: Seq<ModelEntry>, a: int, b: int, c: int)
    requires
        path_before(m, a, b),
        path_before(m, b, c),
    ensures
        path_before(m, a, c),
{
    if text_lt(m[a].path@, m[b].path@) && text_lt(m[b].path@, m[c].path@) {
        lemma_text_lt_transitive(m[a].path@, m[b].path@, m[c].path@);
    }
}

proof fn lemma_path_before_total(m: Seq<ModelEntry>, a: int, b: int)
    requires
        a != b,
        !path_before(m, a, b),
    ensures
        path_before(m, b, a),
{
    if m[a].path@ != m[b].path@ {
        lemma_text_lt_total(m[a].path@, m[b].path@);
    }
}

fn path_order(models: &Vec<ModelEntry>) -> (order: Vec<usize>)
    ensures
        is_path_order(models@, order@),
{
    let n = models.len();
    let mut order: Vec<usize> = Vec::new();
    let mut k: usize = 0;
    while k < n
        invariant
            n == models@.len(),
            0 <= k <= n,
            order@.len() == k,
            forall|i: int| 0 <= i < order@.len() ==> (#[trigger] order@[i]) < k,
            forall|x: usize| x < k ==> #[trigger] order@.contains(x),
            forall|i: int, j: int|
                0 <= i < j < order@.len() ==> path_before(
                    models@,
                    #[trigger] order@[i] as int,
                    #[trigger] order@[j] as int,
                ),
        decreases n - k,
    {
        let mut p: usize = 0;
        while p < order.len()
            invariant
                n == models@.len(),
                k < n,
                0 <= p <= order@.len(),
                forall|i: int| 0 <= i < order@.len() ==> (#[trigger] order@[i]) < k,
                forall|q: int| 0 <= q < p ==> !path_before(models@, k as int, #[trigger] order@[q] as int),
            ensures
                0 <= p <= order@.len(),
                forall|q: int| 0 <= q < p ==> !path_before(models@, k as int, #[trigger] order@[q] as int),
                p == order@.len() || path_before(models@, k as int, order@[p as int] as int),
            decreases order@.len() - p,
        {
            let before = text_less(models[k].path.as_str(), models[order[p]].path.as_str());
            if before {
                break;
            }
            p = p + 1;
        }
        let ghost old_order = order@;
        order.insert(p, k);
        proof {
            assert forall|i: int, j: int| 0 <= i < j < order@.len() implies path_before(
                models@,
                #[trigger] order@[i] as int,
                #[trigger] order@[j] as int,
            ) by {
                if j < p {
                    assert(order@[i] == old_order[i] && order@[j] == old_order[j]);
                } else if j == p {
                    assert(order@[i] == old_order[i]);
                    lemma_path_before_total(models@, k as int, old_order[i] as int);
                } else if i < p {
                    assert(order@[i] == old_order[i] && order@[j] == old_order[j - 1]);
                } else if i == p {
                    assert(order@[j] == old_order[j - 1]);
                    if j - 1 > p {
                        lemma_path_before_transitive(
                            models@,
                            k as int,
                            old_order[p as int] as int,
                            old_order[j - 1] as int,
                        );
                    }
                } else {
                    assert(order@[i] == old_order[i - 1] && order@[j] == old_order[j - 1]);
                }
            }
            assert forall|x: usize| x < k + 1 implies #[trigger] order@.contains(x) by {
                if x == k {
                    assert(order@[p as int] == k);
                } else {
                    assert(old_order.contains(x));
                    let q = choose|q: int| 0 <= q < old_order.len() && old_order[q] == x;
                    if q < p {
                        assert(order@[q] == x);
                    } else {
                        assert(order@[q + 1] == x);
                    }
                }
            }
        }
        k = k + 1;
    }
    order
}

fn copy_entry(e: &ModelEntry) -> (r: ModelEntry)
    ensures
        r == *e,
{
    ModelEntry { name: e.name.clone(), path: e.path.clone() }
}

/// The models sorted by path; models with equal paths keep their order.
pub fn sort_models(models: &Vec<ModelEntry>) -> (listed: Vec<ModelEntry>)
    ensures
        sorted_by_path(models@, listed@),
{
    let order = path_order(models);
    let mut listed: Vec<ModelEntry> = Vec::new();
    let mut i: usize = 0;
    while i < order.len()
        invariant
            is_path_order(models@, order@),
            0 <= i <= order@.len(),
            listed@.len() == i,
            forall|j: int| 0 <= j < i ==> #[trigger] listed@[j] == models@[order@[j] as int],
        decreases order@.len() - i,
    {
        listed.push(copy_entry(&models[order[i]]));
        i = i + 1;
    }
    proof {
        assert(is_path_order(models@, order@) && listed@.len() == order@.len() && forall|j: int|
            0 <= j < listed@.len() ==> #[trigger] listed@[j] == models@[order@[j] as int]);
    }
    listed
}

impl ModelList {
    /// The catalogue of the models folder `dir`, its models sorted by path.
    pub fn new(dir: String, models: Vec<ModelEntry>) -> (r: ModelList)
        ensures
            r.dir == dir,
            sorted_by_path(models@, r.models@),
    {
        let listed = sort_models(&models);
        ModelList { dir, models: listed }
    }
}

/// The loader that a model file goes to.
#[derive(Clone, Copy, PartialEq, Eq, Structural, Debug)]
pub enum ModelKind {
    /// A TorchScript network for the MCTS+DL opponent.
    Torch,
    /// An ONNX network for the MCTS+ONNX opponent.
    Onnx,
    /// An NNUE evaluator for the NNUE opponent.
    Nnue,
}

pub open spec fn msg_needs_onnx(path: Seq<char>) -> Seq<char> {
    "需要启用 onnx 特性才能加载 ONNX 模型（"@ + path + "）"@
}

pub open spec fn msg_needs_torch(path: Seq<char>) -> Seq<char> {
    "需要启用 torch 特性才能加载 TorchScript 模型（"@ + path + "）"@
}

pub open spec fn msg_needs_backend() -> Seq<char> {
    "需要启用 torch 或 onnx 特性才能加载该模型"@
}

/// The loader for a model file with extension `ext`, read case-insensitively.
/// `nnue` goes to NNUE, which needs no network back end. With a network back
/// end built in, `onnx` goes to ONNX and anything else (no extension too) to
/// TorchScript, each failing when its back end is missing. With none built
/// in, every file but an NNUE one is refused.
pub open spec fn spec_choose_loader(
    caps: Capabilities,
    path: Seq<char>,
    ext: Option<Seq<char>>,
) -> Result<ModelKind, Seq<char>> {
    let e = match ext {
        Some(x) => x,
        None => Seq::<char>::empty(),
    };
    if ascii_lowercase_is(e, "nnue"@) {
        Ok(ModelKind::Nnue)
    } else if caps.torch || caps.onnx {
        if ascii_lowercase_is(e, "onnx"@) {
            if caps.onnx {
                Ok(ModelKind::Onnx)
            } else {
                Err(msg_needs_onnx(path))
            }
        } else if caps.torch {
            Ok(ModelKind::Torch)
        } else {
            Err(msg_needs_torch(path))
        }
    } else {
        Err(msg_needs_backend())
    }
}

fn bracketed(prefix: &str, path: &str) -> (r: String)
    ensures
        r@ == prefix@ + path@ + "）"@,
{
    let mut m = String::from_str(prefix);
    m.append(path);
    m.append("）");
    m
}

/// The loader for the model file at `path` whose extension is `ext` (see
/// `spec_choose_loader`).
pub fn choose_loader_for_extension(caps: Capabilities, path: &str, ext: Option<&str>) -> (r: Result<
    ModelKind,
    String,
>)
    ensures
        res_view(r) == spec_choose_loader(
            caps,
            path@,
            match ext {
                Some(e) => Some(e@),
                None => None,
            },
        ),
{
    let e: &str = match ext {
        Some(x) => x,
        None => "",
    };
    proof {
        reveal_strlit("");
        assert(""@ =~= Seq::<char>::empty());
    }
    if ascii_lowercase_eq(e, "nnue") {
        Ok(ModelKind::Nnue)
    } else if caps.torch || caps.onnx {
        if ascii_lowercase_eq(e, "onnx") {
            if caps.onnx {
                Ok(ModelKind::Onnx)
            } else {
                Err(bracketed("需要启用 onnx 特性才能加载 ONNX 模型（", path))
            }
        } else if caps.torch {
            Ok(ModelKind::Torch)
        } else {
            Err(bracketed("需要启用 torch 特性才能加载 TorchScript 模型（", path))
        }
    } else {
        Err(String::from_str("需要启用 torch 或 onnx 特性才能加载该模型"))
    }
}

/// What every extension that `Path::extension` gives is: text with no `.`.
pub open spec fn extension_shape(ext: Option<Seq<char>>) -> bool {
    ext matches Some(e) ==> !e.contains('.')
}

/// The index of the last `c` in `s`, or -1 when there is none.
pub open spec fn last_index_of(s: Seq<char>, c: char) -> int
    decreases s.len(),
{
    if s.len() == 0 {
        -1
    } else if s.last() == c {
        s.len() - 1
    } else {
        last_index_of(s.drop_last(), c)
    }
}

/// The text after the last `/` of a path (all of it when there is none).
pub open spec fn file_part(path: Seq<char>) -> Seq<char> {
    path.subrange(last_index_of(path, '/') + 1, path.len() as int)
}

/// A path whose file name every platform reads alike: it does not start
/// with two separators (`/` or `\`), and the text after its last `/` is a
/// name that is not empty, not `.` or `..`, and holds no `\` or `:`.
pub open spec fn simple_file_part(path: Seq<char>) -> bool {
    let f = file_part(path);
    &&& !(path.len() >= 2 && (path[0] == '/' || path[0] == '\\') && (path[1] == '/' || path[1]
        == '\\'))
    &&& f.len() > 0
    &&& f != seq!['.']
    &&& f != seq!['.', '.']
    &&& !f.contains('\\')
    &&& !f.contains(':')
}

/// The extension of a path with a simple file part: the text after the
/// file name's last `.`, when that `.` is not the name's first character.
pub open spec fn extension_of(path: Seq<char>) -> Option<Seq<char>> {
    let f = file_part(path);
    let k = last_index_of(f, '.');
    if k <= 0 {
        None
    } else {
        Some(f.subrange(k + 1, f.len() as int))
    }
}

/// An optional text taken as its view.
pub open spec fn opt_view(o: Option<String>) -> Option<Seq<char>> {
    match o {
        Some(e) => Some(e@),
        None => None,
    }
}

/// Wraps `std::path::Path::extension`, written back as text with
/// `to_string_lossy`. As its documentation says, the extension is the part
/// of the file name after its last `.`, and there is none when the name has
/// no `.` or only a leading one. The contract states this for paths whose
/// file name all platforms read alike (`simple_file_part`); for other paths
/// it claims only that the extension holds no `.`, and that a path without
/// any `.` has none.
#[verifier::external_body]
fn file_extension(path: &str) -> (r: Option<String>)
    ensures
        extension_shape(opt_view(r)),
        !path@.contains('.') ==> r is None,
        simple_file_part(path@) ==> opt_view(r) == extension_of(path@),
{
    std::path::Path::new(path).extension().map(|x| x.to_string_lossy().into_owned())
}

/// The loader for the model file at `path`, by its extension (see
/// `spec_choose_loader` and `extension_of`).
pub fn choose_loader(caps: Capabilities, path: &str) -> (r: Result<ModelKind, String>)
    ensures
        simple_file_part(path@) ==> res_view(r) == spec_choose_loader(
            caps,
            path@,
            extension_of(path@),
        ),
        !path@.contains('.') ==> res_view(r) == spec_choose_loader(caps, path@, None),
        exists|ext: Option<Seq<char>>|
            extension_shape(ext) && res_view(r) == spec_choose_loader(caps, path@, ext),
{
    let ext = file_extension(path);
    let r = match &ext {
        Some(e) => choose_loader_for_extension(caps, path, Some(e.as_str())),
        None => choose_loader_for_extension(caps, path, None),
    };
    proof {
        let w = opt_view(ext);
        assert(extension_shape(w) && res_view(r) == spec_choose_loader(caps, path@, w));
    }
    r
}

/// Exactly three extensions mark a model file: `pt`, `onnx` and `nnue`,
/// in lower case; every other extension, and no extension, does not.
pub proof fn lemma_model_extensions_exactly(ext: Option<Seq<char>>)
    ensures
        is_model_ext(ext) <==> (ext == Some("pt"@) || ext == Some("onnx"@) || ext == Some(
            "nnue"@,
        )),
        is_model_ext(ext) ==> (ext matches Some(e) && (e.len() == 2 || e.len() == 4)),
        is_model_ext(ext) ==> (ext matches Some(e) && (e[0] == 'p' || e[0] == 'o' || e[0] == 'n')),
{
    reveal_strlit("pt");
    reveal_strlit("onnx");
    reveal_strlit("nnue");
}

/// Each model file goes to the loader its extension names, whatever else
/// was built in: `onnx` in any ASCII case to ONNX whenever the ONNX back
/// end is built in, `nnue` in any case to NNUE always, and any other
/// extension (or none) to TorchScript whenever the torch back end is built
/// in. A file is refused only when the back end its extension needs is
/// missing.
pub proof fn lemma_loader_follows_extension(
    caps: Capabilities,
    path: Seq<char>,
    e: Seq<char>,
)
    ensures
        caps.onnx && ascii_lowercase_is(e, "onnx"@) ==> spec_choose_loader(caps, path, Some(e))
            == Ok::<ModelKind, Seq<char>>(ModelKind::Onnx),
        ascii_lowercase_is(e, "nnue"@) ==> spec_choose_loader(caps, path, Some(e)) == Ok::<
            ModelKind,
            Seq<char>,
        >(ModelKind::Nnue),
        caps.torch && !ascii_lowercase_is(e, "onnx"@) && !ascii_lowercase_is(e, "nnue"@)
            ==> spec_choose_loader(caps, path, Some(e)) == Ok::<ModelKind, Seq<char>>(
            ModelKind::Torch,
        ),
        caps.torch ==> spec_choose_loader(caps, path, None) == Ok::<ModelKind, Seq<char>>(
            ModelKind::Torch,
        ),
        spec_choose_loader(caps, path, Some(e)) == Ok::<ModelKind, Seq<char>>(ModelKind::Onnx)
            ==> caps.onnx && ascii_lowercase_is(e, "onnx"@),
        spec_choose_loader(caps, path, Some(e)) == Ok::<ModelKind, Seq<char>>(ModelKind::Torch)
            ==> caps.torch,
        spec_choose_loader(caps, path, Some(e)) is Err ==> !ascii_lowercase_is(e, "nnue"@) && (
        ascii_lowercase_is(e, "onnx"@) ==> !caps.onnx) && (!ascii_lowercase_is(e, "onnx"@)
            ==> !caps.torch),
{
    reveal_strlit("");
    reveal_strlit("nnue");
    reveal_strlit("onnx");
    assert(""@ =~= Seq::<char>::empty());
    assert("onnx"@ =~= seq!['o', 'n', 'n', 'x']);
    assert("nnue"@ =~= seq!['n', 'n', 'u', 'e']);
    if ascii_lowercase_is(e, "onnx"@) && ascii_lowercase_is(e, "nnue"@) {
        assert(crate::text::ascii_lower_code(e[0]) == "onnx"@[0] as u32);
        assert(crate::text::ascii_lower_code(e[0]) == "nnue"@[0] as u32);
        assert(false);
    }
}

pub open spec fn msg_probe_mismatch(
    channels: nat,
    rows: nat,
    cols: nat,
    scalars: nat,
    err: Seq<char>,
) -> Seq<char> {
    "模型与当前变体不匹配（当前观测 "@ + decimal(channels) + "x"@ + decimal(rows) + "x"@
        + decimal(cols) + " / 标量 "@ + decimal(scalars) + "）: "@ + err
}

/// Says that an ONNX model failed its probe on the current position, whose
/// board observation is `channels`x`rows`x`cols` with `scalars` scalar
/// features; `err` is the inference error.
pub fn probe_mismatch_message(
    channels: usize,
    rows: usize,
    cols: usize,
    scalars: usize,
    err: &str,
) -> (m: String)
    ensures
        m@ == msg_probe_mismatch(channels as nat, rows as nat, cols as nat, scalars as nat, err@),
{
    let mut m = String::from_str("模型与当前变体不匹配（当前观测 ");
    let c = decimal_text(channels);
    m.append(c.as_str());
    m.append("x");
    let r = decimal_text(rows);
    m.append(r.as_str());
    m.append("x");
    let k = decimal_text(cols);
    m.append(k.as_str());
    m.append(" / 标量 ");
    let sc = decimal_text(scalars);
    m.append(sc.as_str());
    m.append("）: ");
    m.append(err);
    m
}

pub open spec fn msg_nnue_dim_note(err: Seq<char>, expected: nat) -> Seq<char> {
    err + "（当前变体维度 "@ + decimal(expected) + "，请先选择匹配变体再加载）"@
}

/// Adds to an NNUE evaluator's feature-dimension error the dimension that
/// the current board expects.
pub fn nnue_dim_note(err: &str, expected: usize) -> (m: String)
    ensures
        m@ == msg_nnue_dim_note(err@, expected as nat),
{
    let mut m = String::from_str(err);
    m.append("（当前变体维度 ");
    let d = decimal_text(expected);
    m.append(d.as_str());
    m.append("，请先选择匹配变体再加载）");
    m
}

} // verus!
