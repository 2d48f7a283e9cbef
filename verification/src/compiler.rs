//! The compiler resolver.
//!
//! An explicit user-supplied compiler path (with an explicit or inferred
//! kind) takes precedence; otherwise a filtered or unfiltered candidate list
//! is searched across the `PATH` directories in order. Whether a candidate
//! path names a regular file is a filesystem fact; it enters as plain data
//! (`explicit_is_file`, the `present` grid), so every branch of the decision
//! is verified for every state of the filesystem.

use vstd::prelude::*;

use crate::chars::{opt_str_view, str_eq};
use crate::errors::{kind_of, message_of, FatalError, FatalKind};
use crate::paths::{file_stem, join_path, spec_file_stem, spec_join_path};
use crate::scan::{lemma_scan_hit_at, lemma_scan_hit_none, scan_hit};

verus! {

/// A known family of C compilers, in contrast to a concrete executable.
#[derive(Debug, Clone, Copy, PartialEq, Eq, Structural, Hash)]
pub enum CompilerType {
    /// The Clang family.
    Clang,
    /// The GCC family.
    GCC,
}

/// The executable name under which a compiler kind is looked up, and the
/// name it is displayed under.
pub open spec fn spec_compiler_type_name(t: CompilerType) -> Seq<char> {
    match t {
        CompilerType::Clang => "clang"@,
        CompilerType::GCC => "gcc"@,
    }
}

/// The executable and display name of `t`.
pub fn compiler_type_name(t: CompilerType) -> (r: String)
    ensures
        r@ == spec_compiler_type_name(t),
{
    match t {
        CompilerType::Clang => "clang".to_owned(),
        CompilerType::GCC => "gcc".to_owned(),
    }
}

/// The kind inferred from an executable's file stem: exactly the known
/// executable names map to their kind; everything else maps to nothing.
pub open spec fn spec_infer_compiler_type(stem: Seq<char>) -> Option<CompilerType> {
    if stem == "clang"@ {
        Some(CompilerType::Clang)
    } else if stem == "gcc"@ {
        Some(CompilerType::GCC)
    } else {
        None
    }
}

impl CompilerType {
    /// Infer a compiler kind from an executable file stem; no match means
    /// no kind, never a guessed default.
    pub fn infer_compiler_type(value: &str) -> (r: Option<Self>)
        ensures
            r == spec_infer_compiler_type(value@),
    {
        if str_eq(value, "clang") {
            Some(CompilerType::Clang)
        } else if str_eq(value, "gcc") {
            Some(CompilerType::GCC)
        } else {
            None
        }
    }
}

/// A resolved compiler: its kind and the path of its executable.
#[derive(Debug, Clone)]
pub struct Compiler {
    /// The compiler's kind.
    pub compiler_type: CompilerType,
    /// The filesystem path of the chosen executable.
    pub compiler_path: String,
}

/// The mathematical value of a resolved compiler.
pub ghost struct ChosenCompiler {
    /// The compiler's kind.
    pub compiler_type: CompilerType,
    /// The path of the chosen executable.
    pub compiler_path: Seq<char>,
}

impl View for Compiler {
    type V = ChosenCompiler;

    open spec fn view(&self) -> ChosenCompiler {
        ChosenCompiler { compiler_type: self.compiler_type, compiler_path: self.compiler_path@ }
    }
}

/// The flags that drive compiler resolution, as an action carries them.
pub trait CompilerFlags {
    /// The explicit compiler path, if one was supplied.
    spec fn spec_compiler(&self) -> Option<Seq<char>>;

    /// The explicit compiler kind, if one was supplied.
    spec fn spec_compiler_type(&self) -> Option<CompilerType>;

    /// The kind filter for the candidate search; empty means unfiltered.
    spec fn spec_compiler_filter(&self) -> Seq<CompilerType>;

    /// The explicit compiler path, if one was supplied.
    fn compiler(&self) -> (r: &Option<String>)
        ensures
            opt_str_view(*r) == self.spec_compiler(),
    ;

    /// The explicit compiler kind, if one was supplied.
    fn compiler_type(&self) -> (r: &Option<CompilerType>)
        ensures
            *r == self.spec_compiler_type(),
    ;

    /// The kind filter for the candidate search.
    fn compiler_filter(&self) -> (r: &Vec<CompilerType>)
        ensures
            r@ == self.spec_compiler_filter(),
    ;
}

/// The default candidate kinds, in search priority order.
pub open spec fn spec_default_compilers() -> Seq<CompilerType> {
    seq![CompilerType::Clang, CompilerType::GCC]
}

/// The default candidate kinds, in search priority order.
pub fn default_compilers() -> (r: Vec<CompilerType>)
    ensures
        r@ == spec_default_compilers(),
{
    let mut r: Vec<CompilerType> = Vec::new();
    r.push(CompilerType::Clang);
    r.push(CompilerType::GCC);
    proof {
        assert(r@ =~= spec_default_compilers());
    }
    r
}

/// The candidate list the search uses: the full default list when the
/// filter is empty, otherwise the default list narrowed to the filtered
/// kinds, keeping the default priority order.
pub open spec fn spec_candidate_list(filter: Seq<CompilerType>) -> Seq<CompilerType> {
    if filter.len() == 0 {
        spec_default_compilers()
    } else if filter.contains(CompilerType::Clang) && filter.contains(CompilerType::GCC) {
        seq![CompilerType::Clang, CompilerType::GCC]
    } else if filter.contains(CompilerType::Clang) {
        seq![CompilerType::Clang]
    } else {
        seq![CompilerType::GCC]
    }
}

/// Whether `filter` mentions the kind `t`.
fn filter_contains(filter: &Vec<CompilerType>, t: CompilerType) -> (r: bool)
    ensures
        r == filter@.contains(t),
{
    let mut i: usize = 0;
    while i < filter.len()
        invariant
            0 <= i <= filter@.len(),
            forall|j: int| 0 <= j < i ==> filter@[j] != t,
        decreases filter@.len() - i,
    {
        if filter[i] == t {
            return true;
        }
        i = i + 1;
    }
    false
}

/// Build the candidate list from the user's kind filter.
pub fn candidate_list(filter: &Vec<CompilerType>) -> (r: Vec<CompilerType>)
    ensures
        r@ == spec_candidate_list(filter@),
{
    if filter.len() == 0 {
        return default_compilers();
    }
    let has_clang = filter_contains(filter, CompilerType::Clang);
    let has_gcc = filter_contains(filter, CompilerType::GCC);
    proof {
        match filter@[0] {
            CompilerType::Clang => assert(filter@.contains(CompilerType::Clang)),
            CompilerType::GCC => assert(filter@.contains(CompilerType::GCC)),
        }
    }
    let mut r: Vec<CompilerType> = Vec::new();
    if has_clang {
        r.push(CompilerType::Clang);
    }
    if has_gcc {
        r.push(CompilerType::GCC);
    }
    proof {
        assert(r@ =~= spec_candidate_list(filter@));
    }
    r
}

/// The views of the `PATH` directories.
pub open spec fn dirs_view(d: Seq<String>) -> Seq<Seq<char>> {
    d.map_values(|s: String| s@)
}

/// The views of the presence grid rows.
pub open spec fn grid_view(g: Seq<Vec<bool>>) -> Seq<Seq<bool>> {
    g.map_values(|row: Vec<bool>| row@)
}

/// The outcome of the `PATH` scan: the first candidate file found, in
/// directory-major order, or a not-found failure.
pub open spec fn spec_find_c_compiler(
    compilers: Seq<CompilerType>,
    dirs: Seq<Seq<char>>,
    present: Seq<Seq<bool>>,
) -> Result<ChosenCompiler, FatalKind> {
    match scan_hit(present) {
        Some(p) => Ok(
            ChosenCompiler {
                compiler_type: compilers[p.1],
                compiler_path: spec_join_path(dirs[p.0], spec_compiler_type_name(compilers[p.1])),
            },
        ),
        None => Err(FatalKind::NotFound),
    }
}

/// Search the `PATH` directories, in order, for the first candidate
/// compiler present as a regular file.
///
/// `path_dirs` is the split `PATH` list, or nothing when the variable was
/// unavailable; `present[i][j]` says whether directory `i` joined with the
/// executable name of candidate `j` names a regular file.
pub fn find_c_compiler(
    compilers: &Vec<CompilerType>,
    path_dirs: Option<&Vec<String>>,
    present: &Vec<Vec<bool>>,
) -> (r: Result<Compiler, FatalError>)
    requires
        path_dirs matches Some(d) ==> present@.len() == d@.len() && forall|i: int|
            0 <= i < present@.len() ==> (#[trigger] present@[i])@.len() == compilers@.len(),
    ensures
        path_dirs is None ==> (r matches Err(e) && kind_of(e) == FatalKind::EnvPrecondition
            && message_of(e).len() > 0),
        path_dirs matches Some(d) ==> match spec_find_c_compiler(
            compilers@,
            dirs_view(d@),
            grid_view(present@),
        ) {
            Ok(c) => r matches Ok(found) && found@ == c,
            Err(k) => r matches Err(e) && kind_of(e) == k && message_of(e).len() > 0,
        },
{
    let dirs;
    match path_dirs {
        Some(d) => {
            dirs = d;
        },
        None => {
            let m = "Unable to get the PATH variable; it is required to search for a C compiler."
                .to_owned();
            proof {
                reveal_strlit(
                    "Unable to get the PATH variable; it is required to search for a C compiler.",
                );
            }
            return Err(FatalError::EnvPrecondition(m));
        },
    }
    let ghost grid = grid_view(present@);
    let mut i: usize = 0;
    while i < dirs.len()
        invariant
            path_dirs == Some(dirs),
            present@.len() == dirs@.len(),
            forall|a: int| 0 <= a < present@.len() ==> (#[trigger] present@[a])@.len()
                == compilers@.len(),
            grid == grid_view(present@),
            0 <= i <= dirs@.len(),
            forall|a: int, b: int| 0 <= a < i && 0 <= b < grid[a].len() ==> !grid[a][b],
        decreases dirs@.len() - i,
    {
        let mut j: usize = 0;
        while j < compilers.len()
            invariant
                path_dirs == Some(dirs),
                present@.len() == dirs@.len(),
                forall|a: int| 0 <= a < present@.len() ==> (#[trigger] present@[a])@.len()
                    == compilers@.len(),
                grid == grid_view(present@),
                0 <= i < dirs@.len(),
                0 <= j <= compilers@.len(),
                forall|a: int, b: int| 0 <= a < i && 0 <= b < grid[a].len() ==> !grid[a][b],
                forall|b: int| 0 <= b < j ==> !grid[i as int][b],
            decreases compilers@.len() - j,
        {
            if present[i][j] {
                proof {
                    lemma_scan_hit_at(grid, i as int, j as int);
                    assert(dirs_view(dirs@)[i as int] == dirs@[i as int]@);
                }
                let name = compiler_type_name(compilers[j]);
                let path = join_path(dirs[i].as_str(), name.as_str());
                return Ok(Compiler { compiler_type: compilers[j], compiler_path: path });
            }
            j = j + 1;
        }
        i = i + 1;
    }
    proof {
        lemma_scan_hit_none(grid);
        reveal_strlit("No suitable C compiler found on the system.");
    }
    Err(FatalError::NotFound("No suitable C compiler found on the system.".to_owned()))
}

/// The outcome of compiler resolution.
///
/// An explicit path takes precedence: it must name a regular file, and its
/// kind is the explicit one, or else the kind inferred from the file stem;
/// when neither yields a kind the input is rejected, never guessed. Without
/// an explicit path the filtered candidate list is searched over `PATH`.
pub open spec fn spec_choose_c_compiler(
    compiler: Option<Seq<char>>,
    compiler_type: Option<CompilerType>,
    filter: Seq<CompilerType>,
    explicit_is_file: bool,
    path_dirs: Option<Seq<Seq<char>>>,
    present: Seq<Seq<bool>>,
) -> Result<ChosenCompiler, FatalKind> {
    match compiler {
        Some(p) => {
            if !explicit_is_file {
                Err(FatalKind::NotFound)
            } else {
                match compiler_type {
                    Some(t) => Ok(ChosenCompiler { compiler_type: t, compiler_path: p }),
                    None => match spec_infer_compiler_type(spec_file_stem(p)) {
                        Some(t) => Ok(ChosenCompiler { compiler_type: t, compiler_path: p }),
                        None => Err(FatalKind::InvalidInput),
                    },
                }
            }
        },
        None => match path_dirs {
            None => Err(FatalKind::EnvPrecondition),
            Some(dirs) => spec_find_c_compiler(spec_candidate_list(filter), dirs, present),
        },
    }
}

/// Resolve the compiler from the action's flags.
///
/// `explicit_is_file` says whether the explicit compiler path (if any)
/// names a regular file; `path_dirs` and `present` describe the `PATH`
/// search state as for [`find_c_compiler`], with the candidate columns in
/// the order of [`candidate_list`] applied to the action's filter.
pub fn choose_c_compiler<F: CompilerFlags>(
    build_action: &F,
    explicit_is_file: bool,
    path_dirs: Option<&Vec<String>>,
    present: &Vec<Vec<bool>>,
) -> (r: Result<Compiler, FatalError>)
    requires
        build_action.spec_compiler() is None ==> (path_dirs matches Some(d) ==> present@.len()
            == d@.len() && forall|i: int|
            0 <= i < present@.len() ==> (#[trigger] present@[i])@.len() == spec_candidate_list(
                build_action.spec_compiler_filter(),
            ).len()),
    ensures
        match spec_choose_c_compiler(
            build_action.spec_compiler(),
            build_action.spec_compiler_type(),
            build_action.spec_compiler_filter(),
            explicit_is_file,
            match path_dirs {
                Some(d) => Some(dirs_view(d@)),
                None => None,
            },
            grid_view(present@),
        ) {
            Ok(c) => r matches Ok(found) && found@ == c,
            Err(k) => r matches Err(e) && kind_of(e) == k && message_of(e).len() > 0,
        },
{
    match build_action.compiler() {
        Some(compiler_path) => {
            if explicit_is_file {
                match build_action.compiler_type() {
                    Some(t) => {
                        return Ok(
                            Compiler { compiler_type: *t, compiler_path: compiler_path.clone() },
                        );
                    },
                    None => {
                        let stem = file_stem(compiler_path.as_str());
                        match CompilerType::infer_compiler_type(stem.as_str()) {
                            Some(t) => {
                                return Ok(
                                    Compiler {
                                        compiler_type: t,
                                        compiler_path: compiler_path.clone(),
                                    },
                                );
                            },
                            None => {
                                let mut m =
                                    "Unable to infer the compiler type of the manually specified compiler "
                                    .to_owned();
                                proof {
                                    reveal_strlit(
                                        "Unable to infer the compiler type of the manually specified compiler ",
                                    );
                                }
                                m.append(compiler_path.as_str());
                                return Err(FatalError::InvalidInput(m));
                            },
                        }
                    },
                }
            } else {
                let mut m = "The manually specified compiler is not a file: ".to_owned();
                proof {
                    reveal_strlit("The manually specified compiler is not a file: ");
                }
                m.append(compiler_path.as_str());
                return Err(FatalError::NotFound(m));
            }
        },
        None => {
            let compilers = candidate_list(build_action.compiler_filter());
            find_c_compiler(&compilers, path_dirs, present)
        },
    }
}

/// With an explicit compiler path and an explicit kind, resolution returns
/// exactly that pair, whatever the `PATH` search state holds.
pub proof fn lemma_explicit_compiler_ignores_path(
    p: Seq<char>,
    t: CompilerType,
    filter: Seq<CompilerType>,
    path_dirs: Option<Seq<Seq<char>>>,
    present: Seq<Seq<bool>>,
)
    ensures
        spec_choose_c_compiler(Some(p), Some(t), filter, true, path_dirs, present) == Ok::<
            ChosenCompiler,
            FatalKind,
        >(ChosenCompiler { compiler_type: t, compiler_path: p }),
{
}

/// With an explicit compiler file and no explicit kind, the kind is
/// inferred from the file stem when the stem names a known kind; a
/// non-matching stem fails resolution as invalid input, never as a
/// guessed default.
pub proof fn lemma_explicit_compiler_stem_inference(
    p: Seq<char>,
    filter: Seq<CompilerType>,
    path_dirs: Option<Seq<Seq<char>>>,
    present: Seq<Seq<bool>>,
)
    ensures
        spec_infer_compiler_type(spec_file_stem(p)) matches Some(t) ==> spec_choose_c_compiler(
            Some(p),
            None,
            filter,
            true,
            path_dirs,
            present,
        ) == Ok::<ChosenCompiler, FatalKind>(
            ChosenCompiler { compiler_type: t, compiler_path: p },
        ),
        spec_infer_compiler_type(spec_file_stem(p)) is None ==> spec_choose_c_compiler(
            Some(p),
            None,
            filter,
            true,
            path_dirs,
            present,
        ) == Err::<ChosenCompiler, FatalKind>(FatalKind::InvalidInput),
{
}

/// The candidate list narrows the default set and nothing else: with an
/// empty filter it is the full default set; with a filter it holds exactly
/// the default kinds the filter mentions, still in default priority order.
pub proof fn lemma_candidate_list_filters_defaults(filter: Seq<CompilerType>)
    ensures
        filter.len() == 0 ==> spec_candidate_list(filter) == spec_default_compilers(),
        forall|t: CompilerType| #[trigger] spec_candidate_list(filter).contains(t) <==> (
        spec_default_compilers().contains(t) && (filter.len() == 0 || filter.contains(t))),
{
    assert forall|t: CompilerType| #[trigger] spec_candidate_list(filter).contains(t) <==> (
    spec_default_compilers().contains(t) && (filter.len() == 0 || filter.contains(t))) by {
        let cands = spec_candidate_list(filter);
        assert(spec_default_compilers()[0] == CompilerType::Clang);
        assert(spec_default_compilers()[1] == CompilerType::GCC);
        if filter.len() > 0 {
            match filter[0] {
                CompilerType::Clang => assert(filter.contains(CompilerType::Clang)),
                CompilerType::GCC => assert(filter.contains(CompilerType::GCC)),
            }
        }
        match t {
            CompilerType::Clang => {
                assert(spec_default_compilers().contains(t));
                if cands.contains(t) {
                    let i = choose|i: int| 0 <= i < cands.len() && cands[i] == t;
                    assert(filter.len() == 0 || filter.contains(t));
                } else {
                    if filter.len() == 0 || filter.contains(t) {
                        assert(cands[0] == t);
                    }
                }
            },
            CompilerType::GCC => {
                assert(spec_default_compilers().contains(t));
                if cands.contains(t) {
                    let i = choose|i: int| 0 <= i < cands.len() && cands[i] == t;
                    if filter.len() > 0 && !filter.contains(t) {
                        assert(cands[i] == CompilerType::Clang);
                    }
                } else {
                    if filter.len() == 0 || filter.contains(t) {
                        assert(cands[cands.len() - 1] == t);
                    }
                }
            },
        }
    }
}

/// The list of comma-separated display names of `cs[i..end]`, each
/// followed by a separator.
pub open spec fn spec_comma_list_from(cs: Seq<CompilerType>, i: int, end: int) -> Seq<char>
    decreases end - i,
{
    if i < 0 || i >= end || end > cs.len() {
        Seq::empty()
    } else {
        spec_compiler_type_name(cs[i]) + ", "@ + spec_comma_list_from(cs, i + 1, end)
    }
}

/// The human-readable rendering of a candidate list: one name alone, two
/// names joined by `and`, more names comma-separated with `or` before the
/// last.
pub open spec fn spec_fmt_compiler_filter(cs: Seq<CompilerType>) -> Seq<char> {
    if cs.len() == 1 {
        spec_compiler_type_name(cs[0])
    } else if cs.len() == 2 {
        spec_compiler_type_name(cs[0]) + " and "@ + spec_compiler_type_name(cs[1])
    } else {
        spec_comma_list_from(cs, 0, cs.len() - 1) + "or "@ + spec_compiler_type_name(cs.last())
    }
}

/// Render a candidate list for human-readable reporting.
pub fn fmt_compiler_filter(compilers: &Vec<CompilerType>) -> (r: String)
    requires
        compilers@.len() > 0,
    ensures
        r@ == spec_fmt_compiler_filter(compilers@),
{
    let n = compilers.len();
    if n == 1 {
        return compiler_type_name(compilers[0]);
    }
    if n == 2 {
        let mut b = compiler_type_name(compilers[0]);
        b.append(" and ");
        let second = compiler_type_name(compilers[1]);
        b.append(second.as_str());
        return b;
    }
    let mut buf = String::new();
    let mut i: usize = 0;
    while i < n - 1
        invariant
            n == compilers@.len(),
            2 < n,
            0 <= i <= n - 1,
            buf@ + spec_comma_list_from(compilers@, i as int, n - 1) == spec_comma_list_from(
                compilers@,
                0,
                n - 1,
            ),
        decreases n - 1 - i,
    {
        let ghost before = buf@;
        let name = compiler_type_name(compilers[i]);
        buf.append(name.as_str());
        buf.append(", ");
        proof {
            assert(buf@ + spec_comma_list_from(compilers@, i + 1, n - 1) =~= before + (
            spec_compiler_type_name(compilers@[i as int]) + ", "@ + spec_comma_list_from(
                compilers@,
                i + 1,
                n - 1,
            )));
        }
        i = i + 1;
    }
    buf.append("or ");
    let last = compiler_type_name(compilers[n - 1]);
    buf.append(last.as_str());
    proof {
        assert(spec_comma_list_from(compilers@, n - 1, n - 1) == Seq::<char>::empty());
        assert(buf@ =~= spec_fmt_compiler_filter(compilers@));
    }
    buf
}

/// The per-kind line of the installation hint: the executable name and a
/// pointer to its installation documentation.
pub open spec fn spec_compiler_help_line(t: CompilerType) -> Seq<char> {
    match t {
        CompilerType::Clang => "'clang' - get started at 'https://clang.llvm.org/get_started.html'"@,
        CompilerType::GCC => "'gcc' - get started at 'https://gcc.gnu.org/install/'"@,
    }
}

/// The full installation hint shown when no compiler is found: a header
/// and one line per known compiler kind.
pub open spec fn spec_installation_hint() -> Seq<char> {
    "Please install a valid C compiler and make sure it is added to PATH.\n"@
        + spec_compiler_help_line(CompilerType::Clang) + "\n"@ + spec_compiler_help_line(
        CompilerType::GCC,
    )
}

/// Build the installation hint emitted when no compiler is found.
pub fn compiler_installation_hint() -> (r: String)
    ensures
        r@ == spec_installation_hint(),
        r@.len() > 0,
{
    let mut b = "Please install a valid C compiler and make sure it is added to PATH.\n"
        .to_owned();
    b.append("'clang' - get started at 'https://clang.llvm.org/get_started.html'");
    b.append("\n");
    b.append("'gcc' - get started at 'https://gcc.gnu.org/install/'");
    proof {
        reveal_strlit("Please install a valid C compiler and make sure it is added to PATH.\n");
        assert(b@ =~= spec_installation_hint());
    }
    b
}

} // verus!
