//! The configuration resolver.
//!
//! The configuration file lives at a path resolved relative to the project
//! root, possibly redirected by a command-line override. Its format is the
//! tool's own line-oriented key/value grammar: a line is blank, a `#`
//! comment, or `key = "value"`; surrounding whitespace is ignored, unknown
//! keys are tolerated, and a recognized key set twice is an error. A
//! missing file is the distinct, non-fatal "absent" state; a file that is
//! present but malformed is fatal.

use vstd::prelude::*;

use crate::chars::{
    is_key_char, is_space, leading_span, lemma_leading_span_at, lemma_trailing_span_at,
    opt_str_view, str_eq, trailing_span,
};
use crate::errors::{kind_of, message_of, FatalError, FatalKind};
use crate::paths::{is_absolute, join_path, spec_is_absolute, spec_join_path};
use crate::{default_config_file_name, spec_default_config_file_name};

verus! {

/// The declarative settings a configuration file can carry: an optional
/// project name and an optional compiler name.
#[derive(Debug)]
pub struct TomlArguments {
    /// The project's name.
    pub name: Option<String>,
    /// The name of the compiler the project prefers.
    pub compiler: Option<String>,
}

/// The mathematical value of a configuration record.
pub ghost struct ConfigModel {
    /// The project's name.
    pub name: Option<Seq<char>>,
    /// The name of the compiler the project prefers.
    pub compiler: Option<Seq<char>>,
}

impl View for TomlArguments {
    type V = ConfigModel;

    open spec fn view(&self) -> ConfigModel {
        ConfigModel { name: opt_str_view(self.name), compiler: opt_str_view(self.compiler) }
    }
}

/// The record with nothing set.
pub open spec fn spec_empty_config() -> ConfigModel {
    ConfigModel { name: None, compiler: None }
}

impl Default for TomlArguments {
    /// The default record sets nothing.
    fn default() -> (r: Self)
        ensures
            r@ == spec_empty_config(),
    {
        TomlArguments { name: None, compiler: None }
    }
}

/// What one configuration line means.
pub ghost enum LineForm {
    /// Whitespace only, or a comment: carries no setting.
    Blank,
    /// A `key = "value"` setting.
    Pair(Seq<char>, Seq<char>),
    /// None of the above: a malformed line.
    Bad,
}

/// `s` without its leading whitespace.
pub open spec fn spec_trim_leading(s: Seq<char>) -> Seq<char> {
    s.skip(leading_span(s, |c: char| is_space(c)))
}

/// `s` without leading and trailing whitespace.
pub open spec fn spec_trim(s: Seq<char>) -> Seq<char> {
    let t = spec_trim_leading(s);
    t.take(t.len() - trailing_span(t, |c: char| is_space(c)))
}

/// The meaning of one line: after trimming, an empty line or a `#` comment
/// is blank; otherwise the line must be a key, an `=`, and a value in
/// double quotes with no further quote inside.
pub open spec fn classify_line(l: Seq<char>) -> LineForm {
    let t = spec_trim(l);
    if t.len() == 0 {
        LineForm::Blank
    } else if t[0] == '#' {
        LineForm::Blank
    } else {
        let k = leading_span(t, |c: char| is_key_char(c));
        if k == 0 {
            LineForm::Bad
        } else {
            let rest = spec_trim_leading(t.skip(k));
            if rest.len() == 0 || rest[0] != '=' {
                LineForm::Bad
            } else {
                let v = spec_trim_leading(rest.drop_first());
                if v.len() >= 2 && v[0] == '"' && v.last() == '"' && (forall|i: int|
                    1 <= i < v.len() - 1 ==> v[i] != '"') {
                    LineForm::Pair(t.take(k), v.subrange(1, v.len() - 1))
                } else {
                    LineForm::Bad
                }
            }
        }
    }
}

/// The lines of `s`, split at every newline.
pub open spec fn spec_split_lines(s: Seq<char>) -> Seq<Seq<char>>
    decreases s.len(),
    via spec_split_lines_decreases
{
    let k = leading_span(s, |c: char| c != '\n');
    if k == s.len() {
        seq![s]
    } else {
        seq![s.take(k)] + spec_split_lines(s.skip(k + 1))
    }
}

#[via_fn]
proof fn spec_split_lines_decreases(s: Seq<char>) {
    crate::chars::lemma_leading_span_bounds(s, |c: char| c != '\n');
}

/// The diagnostic for a malformed line.
pub open spec fn spec_invalid_line_message() -> Seq<char> {
    "Failed to parse the project configuration file: a line is not blank, a comment, or a quoted key/value setting."@
}

/// The diagnostic for a key set twice.
pub open spec fn spec_duplicate_key_message() -> Seq<char> {
    "Failed to parse the project configuration file: a key is set more than once."@
}

/// The meaning of the lines from index `i` on, folded onto the settings
/// accumulated so far: blank lines and unknown keys are passed over, a
/// recognized key fills its field once, a second setting of it or a
/// malformed line is an error.
pub open spec fn parse_config_from(lines: Seq<Seq<char>>, i: int, acc: ConfigModel) -> Result<
    ConfigModel,
    Seq<char>,
>
    decreases lines.len() - i,
{
    if i < 0 || i >= lines.len() {
        Ok(acc)
    } else {
        match classify_line(lines[i]) {
            LineForm::Blank => parse_config_from(lines, i + 1, acc),
            LineForm::Bad => Err(spec_invalid_line_message()),
            LineForm::Pair(k, v) => {
                if k == "name"@ {
                    if acc.name is Some {
                        Err(spec_duplicate_key_message())
                    } else {
                        parse_config_from(
                            lines,
                            i + 1,
                            ConfigModel { name: Some(v), compiler: acc.compiler },
                        )
                    }
                } else if k == "compiler"@ {
                    if acc.compiler is Some {
                        Err(spec_duplicate_key_message())
                    } else {
                        parse_config_from(
                            lines,
                            i + 1,
                            ConfigModel { name: acc.name, compiler: Some(v) },
                        )
                    }
                } else {
                    parse_config_from(lines, i + 1, acc)
                }
            },
        }
    }
}

/// The meaning of a whole configuration text.
pub open spec fn spec_parse_config(s: Seq<char>) -> Result<ConfigModel, Seq<char>> {
    parse_config_from(spec_split_lines(s), 0, spec_empty_config())
}

/// What one parsed line is at runtime.
enum ClassifiedLine {
    Blank,
    Pair(String, String),
    Bad,
}

/// The meaning a classified line stands for.
spec fn line_view(c: &ClassifiedLine) -> LineForm {
    match c {
        ClassifiedLine::Blank => LineForm::Blank,
        ClassifiedLine::Pair(k, v) => LineForm::Pair(k@, v@),
        ClassifiedLine::Bad => LineForm::Bad,
    }
}

/// `s` without leading and trailing whitespace.
fn trim(s: &str) -> (r: String)
    ensures
        r@ == spec_trim(s@),
{
    let n = s.unicode_len();
    let mut lo: usize = 0;
    while lo < n && is_space(s.get_char(lo))
        invariant
            n == s@.len(),
            0 <= lo <= n,
            forall|j: int| 0 <= j < lo ==> is_space(s@[j]),
        decreases n - lo,
    {
        lo = lo + 1;
    }
    proof {
        lemma_leading_span_at(s@, |c: char| is_space(c), lo as int);
    }
    let mut hi: usize = n;
    while hi > lo && is_space(s.get_char(hi - 1))
        invariant
            n == s@.len(),
            lo <= hi <= n,
            forall|j: int| hi <= j < n ==> is_space(s@[j]),
        decreases hi,
    {
        hi = hi - 1;
    }
    proof {
        let t = s@.skip(lo as int);
        assert forall|j: int| t.len() - (n - hi) <= j < t.len() implies is_space(t[j]) by {
            assert(t[j] == s@[lo + j]);
        }
        if (n - hi) < t.len() {
            assert(t[t.len() - (n - hi) - 1] == s@[hi - 1]);
        }
        lemma_trailing_span_at(t, |c: char| is_space(c), n - hi);
        assert(t.take(t.len() - (n - hi)) =~= s@.subrange(lo as int, hi as int));
    }
    s.substring_char(lo, hi).to_owned()
}

/// Classify one line of configuration text.
#[verifier::loop_isolation(false)]
fn classify(l: &str) -> (r: ClassifiedLine)
    ensures
        line_view(&r) == classify_line(l@),
{
    let t_string = trim(l);
    let t = t_string.as_str();
    let tn = t.unicode_len();
    if tn == 0 {
        return ClassifiedLine::Blank;
    }
    if t.get_char(0) == '#' {
        return ClassifiedLine::Blank;
    }
    let mut k: usize = 0;
    while k < tn && is_key_char(t.get_char(k))
        invariant
            t@ == spec_trim(l@),
            tn == t@.len(),
            0 <= k <= tn,
            forall|j: int| 0 <= j < k ==> is_key_char(t@[j]),
        decreases tn - k,
    {
        k = k + 1;
    }
    proof {
        lemma_leading_span_at(t@, |c: char| is_key_char(c), k as int);
    }
    if k == 0 {
        return ClassifiedLine::Bad;
    }
    let mut e: usize = k;
    while e < tn && is_space(t.get_char(e))
        invariant
            t@ == spec_trim(l@),
            tn == t@.len(),
            k <= e <= tn,
            forall|j: int| k <= j < e ==> is_space(t@[j]),
        decreases tn - e,
    {
        e = e + 1;
    }
    proof {
        let sk = t@.skip(k as int);
        assert forall|j: int| 0 <= j < e - k implies is_space(sk[j]) by {
            assert(sk[j] == t@[k + j]);
        }
        if e - k < sk.len() {
            assert(sk[e - k] == t@[e as int]);
        }
        lemma_leading_span_at(sk, |c: char| is_space(c), e - k);
        assert(sk.skip(e - k) =~= t@.skip(e as int));
    }
    if e >= tn || t.get_char(e) != '=' {
        return ClassifiedLine::Bad;
    }
    let mut w: usize = e + 1;
    while w < tn && is_space(t.get_char(w))
        invariant
            t@ == spec_trim(l@),
            tn == t@.len(),
            e + 1 <= w <= tn,
            forall|j: int| e + 1 <= j < w ==> is_space(t@[j]),
        decreases tn - w,
    {
        w = w + 1;
    }
    let ghost rest = spec_trim_leading(t@.skip(k as int));
    proof {
        let sk2 = t@.skip(e + 1);
        assert forall|j: int| 0 <= j < w - (e + 1) implies is_space(sk2[j]) by {
            assert(sk2[j] == t@[e + 1 + j]);
        }
        if w - (e + 1) < sk2.len() {
            assert(sk2[w - (e + 1)] == t@[w as int]);
        }
        lemma_leading_span_at(sk2, |c: char| is_space(c), w - (e + 1));
        assert(rest.drop_first() =~= sk2);
        assert(sk2.skip(w - (e + 1)) =~= t@.skip(w as int));
    }
    let ghost v = spec_trim_leading(rest.drop_first());
    proof {
        assert(v =~= t@.skip(w as int));
    }
    if tn - w < 2 {
        return ClassifiedLine::Bad;
    }
    if t.get_char(w) != '"' {
        return ClassifiedLine::Bad;
    }
    if t.get_char(tn - 1) != '"' {
        return ClassifiedLine::Bad;
    }
    let mut q: usize = w + 1;
    while q < tn - 1
        invariant
            t@ == spec_trim(l@),
            tn == t@.len(),
            2 <= w + 2 <= tn,
            w + 1 <= q <= tn - 1,
            forall|j: int| w + 1 <= j < q ==> t@[j] != '"',
        decreases tn - q,
    {
        if t.get_char(q) == '"' {
            proof {
                assert(v[q - w] == t@[q as int]);
            }
            return ClassifiedLine::Bad;
        }
        q = q + 1;
    }
    let key = t.substring_char(0, k).to_owned();
    let value = t.substring_char(w + 1, tn - 1).to_owned();
    proof {
        assert(v[0] == t@[w as int]);
        assert(v.last() == t@[tn - 1]);
        assert forall|i: int| 1 <= i < v.len() - 1 implies v[i] != '"' by {
            assert(v[i] == t@[w + i]);
        }
        assert(key@ =~= t@.take(k as int));
        assert(value@ =~= v.subrange(1, v.len() - 1));
    }
    ClassifiedLine::Pair(key, value)
}

/// Split configuration text into its lines.
#[verifier::loop_isolation(false)]
fn split_lines(s: &str) -> (r: Vec<String>)
    ensures
        r@.len() == spec_split_lines(s@).len(),
        forall|i: int| 0 <= i < r@.len() ==> r@[i]@ == spec_split_lines(s@)[i],
{
    let n = s.unicode_len();
    let mut r: Vec<String> = Vec::new();
    let mut start: usize = 0;
    let mut i: usize = 0;
    proof {
        assert(s@.skip(0) =~= s@);
    }
    while i < n
        invariant
            n == s@.len(),
            0 <= start <= i <= n,
            forall|j: int| start <= j < i ==> s@[j] != '\n',
            r@.len() + spec_split_lines(s@.skip(start as int)).len() == spec_split_lines(s@).len(),
            forall|m: int| 0 <= m < r@.len() ==> r@[m]@ == spec_split_lines(s@)[m],
            forall|m: int|
                0 <= m < spec_split_lines(s@.skip(start as int)).len() ==> spec_split_lines(
                    s@.skip(start as int),
                )[m] == spec_split_lines(s@)[r@.len() + m],
        decreases n - i,
    {
        if s.get_char(i) == '\n' {
            let ghost curr = s@.skip(start as int);
            let ghost n0 = r@.len() as int;
            proof {
                assert forall|j: int| 0 <= j < i - start implies curr[j] != '\n' by {
                    assert(curr[j] == s@[start + j]);
                }
                assert(curr[i - start] == s@[i as int]);
                lemma_leading_span_at(curr, |c: char| c != '\n', i - start);
                assert(spec_split_lines(curr) == seq![curr.take(i - start)] + spec_split_lines(
                    curr.skip(i - start + 1),
                ));
                assert(curr.take(i - start) =~= s@.subrange(start as int, i as int));
                assert(curr.skip(i - start + 1) =~= s@.skip(i + 1));
            }
            let line = s.substring_char(start, i).to_owned();
            r.push(line);
            proof {
                let tail = spec_split_lines(s@.skip(i + 1));
                assert forall|m: int| 0 <= m < r@.len() implies r@[m]@ == spec_split_lines(
                    s@,
                )[m] by {
                    if m == n0 {
                        assert(spec_split_lines(curr)[0] == curr.take(i - start));
                        assert(spec_split_lines(s@)[n0] == curr.take(i - start));
                    }
                }
                assert forall|m: int| 0 <= m < tail.len() implies tail[m] == spec_split_lines(
                    s@,
                )[r@.len() + m] by {
                    assert((seq![curr.take(i - start)] + tail)[m + 1] == tail[m]);
                    assert(spec_split_lines(curr)[m + 1] == spec_split_lines(s@)[n0 + m + 1]);
                }
            }
            start = i + 1;
        }
        i = i + 1;
    }
    let ghost curr = s@.skip(start as int);
    let ghost n0 = r@.len() as int;
    proof {
        assert forall|j: int| 0 <= j < curr.len() implies curr[j] != '\n' by {
            assert(curr[j] == s@[start + j]);
        }
        lemma_leading_span_at(curr, |c: char| c != '\n', curr.len() as int);
        assert(spec_split_lines(curr) == seq![curr]);
        assert(curr =~= s@.subrange(start as int, n as int));
    }
    let line = s.substring_char(start, n).to_owned();
    r.push(line);
    proof {
        assert forall|m: int| 0 <= m < r@.len() implies r@[m]@ == spec_split_lines(s@)[m] by {
            if m == n0 {
                assert(spec_split_lines(curr)[0] == curr);
                assert(spec_split_lines(s@)[n0] == curr);
            }
        }
    }
    r
}

/// The diagnostic for a malformed line.
fn invalid_line_message() -> (r: String)
    ensures
        r@ == spec_invalid_line_message(),
        r@.len() > 0,
{
    proof {
        reveal_strlit(
            "Failed to parse the project configuration file: a line is not blank, a comment, or a quoted key/value setting.",
        );
    }
    "Failed to parse the project configuration file: a line is not blank, a comment, or a quoted key/value setting.".to_owned()
}

/// The diagnostic for a key set twice.
fn duplicate_key_message() -> (r: String)
    ensures
        r@ == spec_duplicate_key_message(),
        r@.len() > 0,
{
    proof {
        reveal_strlit(
            "Failed to parse the project configuration file: a key is set more than once.",
        );
    }
    "Failed to parse the project configuration file: a key is set more than once.".to_owned()
}

/// Parse configuration text into a record, or report the first malformed
/// or duplicated line.
#[verifier::loop_isolation(false)]
pub fn parse_config(s: &str) -> (r: Result<TomlArguments, String>)
    ensures
        match spec_parse_config(s@) {
            Ok(m) => r matches Ok(a) && a@ == m,
            Err(d) => r matches Err(msg) && msg@ == d && msg@.len() > 0,
        },
{
    let lines = split_lines(s);
    let ghost all = spec_split_lines(s@);
    let mut args = TomlArguments { name: None, compiler: None };
    let mut i: usize = 0;
    while i < lines.len()
        invariant
            lines@.len() == all.len(),
            forall|m: int| 0 <= m < lines@.len() ==> lines@[m]@ == all[m],
            all == spec_split_lines(s@),
            0 <= i <= lines@.len(),
            parse_config_from(all, 0, spec_empty_config()) == parse_config_from(
                all,
                i as int,
                args@,
            ),
        decreases lines@.len() - i,
    {
        match classify(lines[i].as_str()) {
            ClassifiedLine::Blank => {},
            ClassifiedLine::Bad => {
                return Err(invalid_line_message());
            },
            ClassifiedLine::Pair(k, v) => {
                if str_eq(k.as_str(), "name") {
                    if args.name.is_some() {
                        return Err(duplicate_key_message());
                    }
                    args.name = Some(v);
                } else if str_eq(k.as_str(), "compiler") {
                    if args.compiler.is_some() {
                        return Err(duplicate_key_message());
                    }
                    args.compiler = Some(v);
                }
            },
        }
        i = i + 1;
    }
    Ok(args)
}

/// The relative location of the configuration file under the project root:
/// the override itself when it already names an existing file, otherwise
/// the default configuration file name appended to the (possibly absent)
/// override directory.
pub open spec fn spec_resolved_config_relative(
    over: Option<Seq<char>>,
    override_is_file: bool,
) -> Seq<char> {
    match over {
        Some(rel) => if override_is_file {
            rel
        } else {
            spec_join_path(rel, spec_default_config_file_name())
        },
        None => spec_default_config_file_name(),
    }
}

/// The outcome of configuration path resolution: an absolute override is
/// rejected as invalid input, since the configuration must stay inside the
/// project tree; otherwise the relative location is joined to the root.
pub open spec fn spec_resolve_configuration_file(
    root: Seq<char>,
    over: Option<Seq<char>>,
    override_is_file: bool,
) -> Result<Seq<char>, FatalKind> {
    if over matches Some(rel) && spec_is_absolute(rel) {
        Err(FatalKind::InvalidInput)
    } else {
        Ok(spec_join_path(root, spec_resolved_config_relative(over, override_is_file)))
    }
}

/// Resolving the same project root, override and file fact twice yields
/// the same path.
pub proof fn lemma_resolve_configuration_file_idempotent(
    root_a: Seq<char>,
    over_a: Option<Seq<char>>,
    is_file_a: bool,
    root_b: Seq<char>,
    over_b: Option<Seq<char>>,
    is_file_b: bool,
)
    requires
        root_a == root_b,
        over_a == over_b,
        is_file_a == is_file_b,
    ensures
        spec_resolve_configuration_file(root_a, over_a, is_file_a)
            == spec_resolve_configuration_file(root_b, over_b, is_file_b),
{
}

/// Resolve the path of the configuration file under `project_root`.
///
/// `override_is_file` says whether the override in `configuration_file`
/// already names an existing regular file; such an override is used
/// verbatim, any other is treated as a directory for the default file
/// name.
pub fn resolve_configuration_file(
    project_root: &str,
    configuration_file: &Option<String>,
    override_is_file: bool,
) -> (r: Result<String, FatalError>)
    ensures
        match spec_resolve_configuration_file(
            project_root@,
            opt_str_view(*configuration_file),
            override_is_file,
        ) {
            Ok(p) => r matches Ok(path) && path@ == p,
            Err(k) => r matches Err(e) && kind_of(e) == k && message_of(e).len() > 0,
        },
{
    match configuration_file {
        Some(rel) => {
            if is_absolute(rel.as_str()) {
                let m =
                    "The path to the configuration file must be relative to the project root; found an absolute path."
                    .to_owned();
                proof {
                    reveal_strlit(
                        "The path to the configuration file must be relative to the project root; found an absolute path.",
                    );
                }
                return Err(FatalError::InvalidInput(m));
            }
            if override_is_file {
                Ok(join_path(project_root, rel.as_str()))
            } else {
                let with_default = join_path(rel.as_str(), default_config_file_name());
                Ok(join_path(project_root, with_default.as_str()))
            }
        },
        None => Ok(join_path(project_root, default_config_file_name())),
    }
}

/// What reading the configuration file yielded, as the caller saw it.
pub enum ConfigFileRead {
    /// The file exists and these are its contents.
    Found(String),
    /// The file does not exist.
    Missing,
    /// The file exists but could not be read; carries the reason.
    Unreadable(String),
}

/// The mathematical value of a read outcome.
pub ghost enum ConfigReadModel {
    /// The file exists and these are its contents.
    Found(Seq<char>),
    /// The file does not exist.
    Missing,
    /// The file exists but could not be read.
    Unreadable(Seq<char>),
}

impl View for ConfigFileRead {
    type V = ConfigReadModel;

    open spec fn view(&self) -> ConfigReadModel {
        match self {
            ConfigFileRead::Found(s) => ConfigReadModel::Found(s@),
            ConfigFileRead::Missing => ConfigReadModel::Missing,
            ConfigFileRead::Unreadable(e) => ConfigReadModel::Unreadable(e@),
        }
    }
}

/// The outcome of loading the configuration: a missing file is the absent
/// state, never an error; unreadable contents are fatal; present contents
/// are parsed, and a parse failure is fatal.
pub open spec fn spec_load_config(read: ConfigReadModel) -> Result<
    Option<ConfigModel>,
    FatalKind,
> {
    match read {
        ConfigReadModel::Missing => Ok(None),
        ConfigReadModel::Unreadable(_) => Err(FatalKind::Io),
        ConfigReadModel::Found(s) => match spec_parse_config(s) {
            Ok(m) => Ok(Some(m)),
            Err(_) => Err(FatalKind::MalformedConfig),
        },
    }
}

/// Interpret what reading the configuration file yielded.
///
/// A missing file returns the absent state so the caller may generate
/// defaults; a present file that fails to parse is fatal, and the fatal
/// error surfaces the parse diagnostic itself, which is never empty.
pub fn get_toml_arguments(read_outcome: &ConfigFileRead) -> (r: Result<
    Option<TomlArguments>,
    FatalError,
>)
    ensures
        match spec_load_config(read_outcome@) {
            Ok(None) => r matches Ok(a) && a is None,
            Ok(Some(m)) => r matches Ok(a) && (a matches Some(args) && args@ == m),
            Err(k) => r matches Err(e) && kind_of(e) == k && message_of(e).len() > 0,
        },
        read_outcome@ matches ConfigReadModel::Found(s) ==> (spec_parse_config(s) matches Err(d)
            ==> (r matches Err(e) && message_of(e) == d)),
{
    match read_outcome {
        ConfigFileRead::Missing => Ok(None),
        ConfigFileRead::Unreadable(err) => {
            let mut m = "Unable to read the configuration file: ".to_owned();
            proof {
                reveal_strlit("Unable to read the configuration file: ");
            }
            m.append(err.as_str());
            Err(FatalError::Io(m))
        },
        ConfigFileRead::Found(content) => match parse_config(content.as_str()) {
            Ok(args) => Ok(Some(args)),
            Err(d) => Err(FatalError::MalformedConfig(d)),
        },
    }
}

/// One serialized `key = "value"` line, with its newline.
pub open spec fn spec_config_line(key: Seq<char>, value: Seq<char>) -> Seq<char> {
    key + " = \""@ + value + "\"\n"@
}

/// The serialized text of a configuration record: one line per field that
/// is set, the name first.
pub open spec fn spec_config_content(m: ConfigModel) -> Seq<char> {
    (match m.name {
        Some(n) => spec_config_line("name"@, n),
        None => Seq::empty(),
    }) + (match m.compiler {
        Some(c) => spec_config_line("compiler"@, c),
        None => Seq::empty(),
    })
}

/// Serialize a configuration record to the text the configuration file
/// holds.
pub fn config_file_content(args: &TomlArguments) -> (r: String)
    ensures
        r@ == spec_config_content(args@),
{
    let mut b = String::new();
    proof {
        reveal_strlit("name");
        reveal_strlit("compiler");
        reveal_strlit(" = \"");
        reveal_strlit("\"\n");
        reveal_strlit("name = \"");
        reveal_strlit("compiler = \"");
    }
    match &args.name {
        Some(n) => {
            b.append("name = \"");
            b.append(n.as_str());
            b.append("\"\n");
            proof {
                assert(b@ =~= spec_config_line("name"@, n@));
            }
        },
        None => {},
    }
    let ghost head = b@;
    match &args.compiler {
        Some(c) => {
            b.append("compiler = \"");
            b.append(c.as_str());
            b.append("\"\n");
            proof {
                assert(b@ =~= head + spec_config_line("compiler"@, c@));
            }
        },
        None => {},
    }
    proof {
        assert(b@ =~= spec_config_content(args@));
    }
    b
}


/// Whether a value can stand inside quotes in the configuration file: it
/// holds no quote and no newline.
pub open spec fn spec_value_representable(v: Seq<char>) -> bool {
    forall|i: int| 0 <= i < v.len() ==> v[i] != '"' && v[i] != '\n'
}

/// A serialized setting line (without its newline) classifies as exactly
/// the pair it was built from.
proof fn lemma_classify_setting_line(key: Seq<char>, value: Seq<char>)
    requires
        key.len() > 0,
        forall|i: int| 0 <= i < key.len() ==> is_key_char(key[i]),
        spec_value_representable(value),
    ensures
        classify_line(key + " = \""@ + value + "\""@) == LineForm::Pair(key, value),
{
    reveal_strlit(" = \"");
    reveal_strlit("\"");
    let mid = " = \""@;
    let quote = "\""@;
    let l = key + mid + value + quote;
    let kn = key.len() as int;
    assert(l.len() == kn + 4 + value.len() + 1);
    assert forall|i: int| 0 <= i < kn implies l[i] == key[i] by {}
    assert(l[kn] == ' ');
    assert(l[kn + 1] == '=');
    assert(l[kn + 2] == ' ');
    assert(l[kn + 3] == '"');
    assert forall|i: int| 0 <= i < value.len() implies l[kn + 4 + i] == value[i] by {}
    assert(l.last() == '"');

    // The line carries no surrounding whitespace, so trimming keeps it.
    assert(!is_space(l[0]));
    lemma_leading_span_at(l, |c: char| is_space(c), 0);
    assert(l.skip(0) =~= l);
    lemma_trailing_span_at(l, |c: char| is_space(c), 0);
    assert(l.take(l.len() as int) =~= l);
    assert(spec_trim(l) == l);

    // The key span covers exactly the key.
    assert(!is_key_char(l[kn]));
    lemma_leading_span_at(l, |c: char| is_key_char(c), kn);
    assert(l.take(kn) =~= key);

    // One space, the `=`, one space, then the quoted value.
    let sk = l.skip(kn);
    assert(sk[0] == ' ' && sk.len() > 1 && sk[1] == '=');
    lemma_leading_span_at(sk, |c: char| is_space(c), 1);
    let rest = spec_trim_leading(sk);
    assert(rest =~= l.skip(kn + 1));
    assert(rest[0] == '=');
    let sk2 = rest.drop_first();
    assert(sk2 =~= l.skip(kn + 2));
    assert(sk2[0] == ' ' && sk2.len() > 1 && sk2[1] == '"');
    lemma_leading_span_at(sk2, |c: char| is_space(c), 1);
    let v = spec_trim_leading(sk2);
    assert(v =~= l.skip(kn + 3));
    assert(v.len() == value.len() + 2);
    assert(v[0] == '"');
    assert(v.last() == '"');
    assert forall|i: int| 1 <= i < v.len() - 1 implies v[i] != '"' by {
        assert(v[i] == l[kn + 3 + i]);
        assert(l[kn + 4 + (i - 1)] == value[i - 1]);
    }
    assert(v.subrange(1, v.len() - 1) =~= value);
}

/// The empty line classifies as blank.
proof fn lemma_classify_empty_line()
    ensures
        classify_line(Seq::<char>::empty()) == LineForm::Blank,
{
    let e = Seq::<char>::empty();
    lemma_leading_span_at(e, |c: char| is_space(c), 0);
    assert(e.skip(0) =~= e);
    lemma_trailing_span_at(e, |c: char| is_space(c), 0);
    assert(e.take(0) =~= e);
    assert(spec_trim(e) == e);
}

/// A serialized setting line, its newline included, splits off as one line
/// ahead of whatever follows.
proof fn lemma_split_setting_line(key: Seq<char>, value: Seq<char>, tail: Seq<char>)
    requires
        forall|i: int| 0 <= i < key.len() ==> is_key_char(key[i]),
        spec_value_representable(value),
    ensures
        spec_split_lines(spec_config_line(key, value) + tail) == seq![
            key + " = \""@ + value + "\""@,
        ] + spec_split_lines(tail),
{
    reveal_strlit(" = \"");
    reveal_strlit("\"");
    reveal_strlit("\"\n");
    reveal_strlit("\n");
    let line = key + " = \""@ + value + "\""@;
    let s = spec_config_line(key, value) + tail;
    let kn = key.len() as int;
    assert(s =~= line + "\n"@ + tail);
    assert(line.len() == kn + 4 + value.len() + 1);
    assert forall|i: int| 0 <= i < line.len() implies s[i] == line[i] && s[i] != '\n' by {
        if i < kn {
            assert(s[i] == key[i]);
            assert(is_key_char(key[i]));
            assert(key[i] != '\n');
        } else if i < kn + 4 {
            assert(s[i] == " = \""@[i - kn]);
        } else if i < kn + 4 + value.len() {
            assert(s[i] == value[i - kn - 4]);
        } else {
            assert(s[i] == '"');
        }
    }
    assert(s[line.len() as int] == '\n');
    lemma_leading_span_at(s, |c: char| c != '\n', line.len() as int);
    assert(s.take(line.len() as int) =~= line);
    assert(s.skip(line.len() as int + 1) =~= tail);
}

/// What generation writes, loading reads back: serializing a record whose
/// values hold no quote and no newline and parsing the text again yields
/// the record itself.
pub proof fn lemma_config_content_round_trips(m: ConfigModel)
    requires
        m.name matches Some(n) ==> spec_value_representable(n),
        m.compiler matches Some(c) ==> spec_value_representable(c),
    ensures
        spec_parse_config(spec_config_content(m)) == Ok::<ConfigModel, Seq<char>>(m),
{
    reveal_strlit("name");
    reveal_strlit("compiler");
    let name_key = "name"@;
    let comp_key = "compiler"@;
    assert(name_key.len() == 4 && comp_key.len() == 8);
    assert forall|i: int| 0 <= i < name_key.len() implies is_key_char(name_key[i]) by {}
    assert forall|i: int| 0 <= i < comp_key.len() implies is_key_char(comp_key[i]) by {}
    assert(name_key != comp_key);

    let empty = Seq::<char>::empty();
    lemma_leading_span_at(empty, |c: char| c != '\n', 0);
    assert(spec_split_lines(empty) == seq![empty]);
    lemma_classify_empty_line();

    let content = spec_config_content(m);
    match m.name {
        Some(n) => {
            let name_line = name_key + " = \""@ + n + "\""@;
            lemma_classify_setting_line(name_key, n);
            match m.compiler {
                Some(c) => {
                    let comp_line = comp_key + " = \""@ + c + "\""@;
                    lemma_classify_setting_line(comp_key, c);
                    lemma_split_setting_line(comp_key, c, empty);
                    assert(spec_config_line(comp_key, c) + empty =~= spec_config_line(
                        comp_key,
                        c,
                    ));
                    lemma_split_setting_line(name_key, n, spec_config_line(comp_key, c));
                    assert(content =~= spec_config_line(name_key, n) + spec_config_line(
                        comp_key,
                        c,
                    ));
                    let lines = spec_split_lines(content);
                    assert(lines =~= seq![name_line, comp_line, empty]);
                    assert(parse_config_from(lines, 3, m) == Ok::<ConfigModel, Seq<char>>(m));
                    assert(parse_config_from(lines, 2, m) == Ok::<ConfigModel, Seq<char>>(m));
                    assert(parse_config_from(
                        lines,
                        1,
                        ConfigModel { name: Some(n), compiler: None },
                    ) == Ok::<ConfigModel, Seq<char>>(m));
                    assert(parse_config_from(lines, 0, spec_empty_config()) == Ok::<
                        ConfigModel,
                        Seq<char>,
                    >(m));
                },
                None => {
                    lemma_split_setting_line(name_key, n, empty);
                    assert(content =~= spec_config_line(name_key, n) + empty);
                    let lines = spec_split_lines(content);
                    assert(lines =~= seq![name_line, empty]);
                    assert(parse_config_from(lines, 2, m) == Ok::<ConfigModel, Seq<char>>(m));
                    assert(parse_config_from(lines, 1, m) == Ok::<ConfigModel, Seq<char>>(m));
                    assert(parse_config_from(lines, 0, spec_empty_config()) == Ok::<
                        ConfigModel,
                        Seq<char>,
                    >(m));
                },
            }
        },
        None => {
            match m.compiler {
                Some(c) => {
                    let comp_line = comp_key + " = \""@ + c + "\""@;
                    lemma_classify_setting_line(comp_key, c);
                    lemma_split_setting_line(comp_key, c, empty);
                    assert(content =~= spec_config_line(comp_key, c) + empty);
                    let lines = spec_split_lines(content);
                    assert(lines =~= seq![comp_line, empty]);
                    assert(parse_config_from(lines, 2, m) == Ok::<ConfigModel, Seq<char>>(m));
                    assert(parse_config_from(lines, 1, m) == Ok::<ConfigModel, Seq<char>>(m));
                    assert(parse_config_from(lines, 0, spec_empty_config()) == Ok::<
                        ConfigModel,
                        Seq<char>,
                    >(m));
                },
                None => {
                    assert(content =~= empty);
                    let lines = spec_split_lines(content);
                    assert(lines =~= seq![empty]);
                    assert(parse_config_from(lines, 1, m) == Ok::<ConfigModel, Seq<char>>(m));
                    assert(parse_config_from(lines, 0, spec_empty_config()) == Ok::<
                        ConfigModel,
                        Seq<char>,
                    >(m));
                },
            }
        },
    }
}


/// Any parse failure carries one of the two diagnostics, and both are
/// non-empty: an invalid file is never rejected silently.
proof fn lemma_parse_config_from_errors(lines: Seq<Seq<char>>, i: int, acc: ConfigModel)
    ensures
        parse_config_from(lines, i, acc) matches Err(d) ==> (d == spec_invalid_line_message() || d
            == spec_duplicate_key_message()),
    decreases lines.len() - i,
{
    if 0 <= i < lines.len() {
        match classify_line(lines[i]) {
            LineForm::Blank => lemma_parse_config_from_errors(lines, i + 1, acc),
            LineForm::Bad => {},
            LineForm::Pair(k, v) => {
                lemma_parse_config_from_errors(
                    lines,
                    i + 1,
                    ConfigModel { name: Some(v), compiler: acc.compiler },
                );
                lemma_parse_config_from_errors(
                    lines,
                    i + 1,
                    ConfigModel { name: acc.name, compiler: Some(v) },
                );
                lemma_parse_config_from_errors(lines, i + 1, acc);
            },
        }
    }
}

/// A syntactically invalid configuration is rejected with a non-empty
/// diagnostic, whatever the text was.
pub proof fn lemma_parse_diagnostics_non_empty(s: Seq<char>)
    ensures
        spec_parse_config(s) matches Err(d) ==> d.len() > 0,
{
    lemma_parse_config_from_errors(spec_split_lines(s), 0, spec_empty_config());
    reveal_strlit(
        "Failed to parse the project configuration file: a line is not blank, a comment, or a quoted key/value setting.",
    );
    reveal_strlit("Failed to parse the project configuration file: a key is set more than once.");
}


} // verus!
