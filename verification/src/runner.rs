//! Expansion of test declarations into a flat run plan.
//!
//! The orchestrator takes an ordered list of declarations — regular tests,
//! file-driven tests, data-driven tests — expands each into concrete cases
//! with stable hierarchical names, rewrites an exact name filter that
//! targets a declaration into a prefix filter over its children, and hands
//! the resulting plan to whatever executor the caller runs it with.
use vstd::prelude::*;

use crate::data::DataTestCaseDesc;
use crate::files::{FileCase, FilesTestDesc};
use crate::pattern;
use crate::text;

verus! {

/// Strip a single leading `namespace::` prefix from a declaration name:
/// everything up to and including the first `::`, or the whole name when
/// there is none.
pub open spec fn spec_real_name(name: Seq<char>) -> Seq<char> {
    match text::spec_find_sep(name) {
        Some(i) => name.skip(i + 2),
        None => name,
    }
}

/// The name under which a declaration is addressed: its own name with the
/// single leading `namespace::` prefix removed, first occurrence only.
pub fn real_name(name: &str) -> (r: String)
    ensures
        r@ == spec_real_name(name@),
{
    let v = text::chars_of(name);
    match text::find_sep(&v) {
        Some(i) => {
            let sub = text::sub_chars(&v, i + 2, v.len());
            proof {
                assert(sub@ =~= spec_real_name(name@));
            }
            text::string_from_chars(&sub)
        },
        None => String::from_str(name),
    }
}

/// The full name of a file-driven case: the declaration's addressable name,
/// `::`, then the matched path relative to the declaration's root.
pub open spec fn spec_derived_name(root: Seq<char>, path: Seq<char>, test_name: Seq<char>) -> Seq<
    char,
> {
    spec_real_name(test_name) + "::"@ + text::spec_relative(root, path)
}

/// Derive the name of a file-driven case from the declaration name and the
/// matched path.
pub fn derive_test_name(root: &str, path: &str, test_name: &str) -> (r: String)
    requires
        root@.is_prefix_of(path@),
    ensures
        r@ == spec_derived_name(root@, path@, test_name@),
{
    let mut r = real_name(test_name);
    r.append("::");
    let rel = text::relative_path(root, path);
    r.append(rel.as_str());
    r
}

/// The executor options this engine reads and may rewrite: the name filter
/// and its exact-match flag. Every other option passes through untouched.
pub struct TestOpts {
    pub filter: Option<String>,
    pub filter_exact: bool,
}

/// The abstract value of a `TestOpts`.
pub ghost struct OptsView {
    pub filter: Option<Seq<char>>,
    pub filter_exact: bool,
}

impl View for TestOpts {
    type V = OptsView;

    open spec fn view(&self) -> OptsView {
        OptsView {
            filter: match self.filter {
                Some(f) => Some(f@),
                None => None,
            },
            filter_exact: self.filter_exact,
        }
    }
}

/// How expanding a declaration named `name` rewrites the filter options: an
/// exact filter equal to the declaration's addressable name becomes a
/// prefix filter `name::` with exact matching disabled, so the children of
/// the expansion still run; any other filter is left alone.
pub open spec fn spec_adjust(o: OptsView, name: Seq<char>) -> OptsView {
    let stripped = spec_real_name(name);
    if o.filter_exact && o.filter == Some(stripped) {
        OptsView { filter: Some(stripped + "::"@), filter_exact: false }
    } else {
        o
    }
}

/// When the filter is an exact match for the declaration's addressable
/// name, disable exact matching and turn the filter into the prefix
/// `name::`, so every child case of the expansion still runs.
pub fn adjust_for_test_name(opts: &mut TestOpts, name: &str)
    ensures
        final(opts)@ == spec_adjust(old(opts)@, name@),
{
    let stripped = real_name(name);
    let hit = opts.filter_exact && match &opts.filter {
        Some(f) => *f == stripped,
        None => false,
    };
    if hit {
        let mut prefixed = stripped;
        prefixed.append("::");
        opts.filter = Some(prefixed);
        opts.filter_exact = false;
    }
}

/// Rewriting the filter for the same declaration twice changes nothing
/// beyond the first rewrite.
pub proof fn lemma_adjust_idempotent(o: OptsView, name: Seq<char>)
    ensures
        spec_adjust(spec_adjust(o, name), name) == spec_adjust(o, name),
{
}

/// An exact filter equal to the declaration's addressable name is always
/// converted: exact matching off, filter the prefix `name::`.
pub proof fn lemma_adjust_exact_filter(o: OptsView, name: Seq<char>)
    requires
        o.filter_exact,
        o.filter == Some(spec_real_name(name)),
    ensures
        spec_adjust(o, name) == (OptsView {
            filter: Some(spec_real_name(name) + "::"@),
            filter_exact: false,
        }),
{
}

/// A filter already holding the prefix form `name::` is left unchanged.
pub proof fn lemma_adjust_prefixed_unchanged(o: OptsView, name: Seq<char>)
    requires
        o.filter == Some(spec_real_name(name) + "::"@),
    ensures
        spec_adjust(o, name) == o,
{
    reveal_strlit("::");
    assert((spec_real_name(name) + "::"@).len() != spec_real_name(name).len());
}


/// The test a scanned path must pass to become a case of a declaration
/// rooted at `root` with pattern `pat`: no component of the path below the
/// root begins with `.` — neither the file's own name nor any directory
/// above it — and the full path matches the pattern.
pub open spec fn spec_match_pred(root: Seq<char>, pat: Seq<char>) -> spec_fn(String) -> bool {
    |p: String| text::spec_no_hidden(text::spec_relative(root, p@)) && pattern::regex_match(
        pat,
        p@,
    )
}

/// Keep exactly the scanned paths that match the pattern and hide nothing:
/// no path below the root whose name begins with `.`, nor anything inside
/// a hidden directory, is ever kept, regardless of match.
pub fn find_matches(root: &str, pattern_text: &str, scanned: &Vec<String>) -> (r: Vec<String>)
    requires
        pattern::regex_valid(pattern_text@),
    ensures
        r@ == scanned@.filter(spec_match_pred(root@, pattern_text@)),
{
    let rv = text::chars_of(root);
    let mut r: Vec<String> = Vec::new();
    for i in 0..scanned.len()
        invariant
            pattern::regex_valid(pattern_text@),
            rv@ == root@,
            r@ == scanned@.take(i as int).filter(spec_match_pred(root@, pattern_text@)),
    {
        let pv = text::chars_of(scanned[i].as_str());
        let rel = text::relative_chars(&rv, &pv);
        let keep = text::no_hidden_component(&rel) && pattern::pattern_matches(
            pattern_text,
            scanned[i].as_str(),
        );
        if keep {
            let p = scanned[i].clone();
            r.push(p);
        }
        proof {
            text::lemma_filter_push(
                scanned@.take(i as int),
                spec_match_pred(root@, pattern_text@),
                scanned@[i as int],
            );
            assert(scanned@.take(i + 1 as int) =~= scanned@.take(i as int).push(
                scanned@[i as int],
            ));
        }
    }
    proof {
        assert(scanned@.take(scanned@.len() as int) =~= scanned@);
    }
    r
}

/// Match scanned paths against a declaration's pattern, first checking
/// that the pattern compiles: `None` exactly when it does not.
pub fn try_find_matches(root: &str, pattern_text: &str, scanned: &Vec<String>) -> (r: Option<
    Vec<String>,
>)
    ensures
        match r {
            Some(m) => pattern::regex_valid(pattern_text@) && m@ == scanned@.filter(
                spec_match_pred(root@, pattern_text@),
            ),
            None => !pattern::regex_valid(pattern_text@),
        },
{
    if pattern::check_pattern(pattern_text) {
        Some(find_matches(root, pattern_text, scanned))
    } else {
        None
    }
}

/// A configuration error: the run is aborted before any case executes, with
/// a diagnostic naming the declaration and what was wrong with it.
#[derive(Debug)]
pub enum ConfigError {
    /// The declaration's pattern is not a valid regular expression.
    InvalidPattern { name: String, pattern: String },
    /// The declaration's pattern matched no file under its root.
    NoMatches { name: String, root: String, pattern: String },
    /// The declaration's document does not parse.
    InvalidDocument { name: String, root: String },
    /// The position scan and the deserializer disagree on how many
    /// top-level elements the document has.
    IndexMismatch { name: String, indexed: usize, elements: usize },
    /// The declaration expanded to no cases at all.
    NoCases { name: String },
}

/// The path a slot contributes to a case matched at `path`: the matched
/// path itself for the pattern slot, the template substitution applied to
/// the matched path for every other slot.
pub open spec fn spec_slot_path(desc: FilesTestDesc, path: Seq<char>, j: int) -> Seq<char> {
    if j == desc.pattern as int {
        path
    } else {
        pattern::regex_substitution(desc.spec_pattern(), path, desc.params@[j]@)
    }
}

/// The case a files declaration derives from a matched path: the derived
/// name, one slot path per declared slot, and the ignore flag — the
/// declaration's own flag, or the per-path mark from the ignore predicate.
pub open spec fn spec_file_case(desc: FilesTestDesc, path: Seq<char>, mark: bool, c: FileCase) -> bool {
    &&& c.name@ == spec_derived_name(desc.root@, path, desc.name@)
    &&& c.ignore == (desc.ignore || mark)
    &&& c.path@ == path
    &&& c.paths@.len() == desc.params@.len()
    &&& forall|j: int|
        0 <= j < desc.params@.len() ==> (#[trigger] c.paths@[j])@ == spec_slot_path(desc, path, j)
}

/// Expand a files declaration over its matched paths. `marks[i]` is the
/// ignore predicate's answer for `matched[i]` (all false when the
/// declaration has no predicate). Zero matches is a configuration error
/// naming the declaration, its root and its pattern — never an empty
/// success.
pub fn render_files_test(desc: &FilesTestDesc, matched: &Vec<String>, marks: &Vec<bool>) -> (r:
    Result<Vec<FileCase>, ConfigError>)
    requires
        desc.wf(),
        pattern::regex_valid(desc.spec_pattern()),
        marks@.len() == matched@.len(),
        forall|i: int| 0 <= i < matched@.len() ==> desc.root@.is_prefix_of(#[trigger] matched@[i]@),
    ensures
        match r {
            Err(e) => matched@.len() == 0 && (e matches ConfigError::NoMatches {
                name,
                root,
                pattern: pat,
            } && name@ == desc.name@ && root@ == desc.root@ && pat@ == desc.spec_pattern()),
            Ok(cases) => matched@.len() > 0 && cases@.len() == matched@.len() && forall|i: int|
                0 <= i < cases@.len() ==> spec_file_case(
                    *desc,
                    matched@[i]@,
                    marks@[i],
                    #[trigger] cases@[i],
                ),
        },
{
    if matched.len() == 0 {
        return Err(
            ConfigError::NoMatches {
                name: desc.name.clone(),
                root: desc.root.clone(),
                pattern: desc.params[desc.pattern].clone(),
            },
        );
    }
    let mut cases: Vec<FileCase> = Vec::new();
    for i in 0..matched.len()
        invariant
            desc.wf(),
            pattern::regex_valid(desc.spec_pattern()),
            marks@.len() == matched@.len(),
            forall|k: int|
                0 <= k < matched@.len() ==> desc.root@.is_prefix_of(#[trigger] matched@[k]@),
            cases@.len() == i,
            forall|k: int|
                0 <= k < i ==> spec_file_case(*desc, matched@[k]@, marks@[k], #[trigger] cases@[k]),
    {
        let mut paths: Vec<String> = Vec::new();
        for j in 0..desc.params.len()
            invariant
                desc.wf(),
                pattern::regex_valid(desc.spec_pattern()),
                i < matched@.len(),
                paths@.len() == j,
                forall|k: int|
                    0 <= k < j ==> (#[trigger] paths@[k])@ == spec_slot_path(
                        *desc,
                        matched@[i as int]@,
                        k,
                    ),
        {
            if j == desc.pattern {
                let p = matched[i].clone();
                paths.push(p);
            } else {
                let derived = pattern::pattern_substitute(
                    desc.params[desc.pattern].as_str(),
                    matched[i].as_str(),
                    desc.params[j].as_str(),
                );
                paths.push(derived);
            }
        }
        let name = derive_test_name(desc.root.as_str(), matched[i].as_str(), desc.name.as_str());
        let ignore = desc.ignore || marks[i];
        let p = matched[i].clone();
        cases.push(FileCase { name, ignore, path: p, paths });
    }
    Ok(cases)
}

/// One expanded data-driven case whose payload has type `T`: the full case
/// name, the (uniform) ignore flag, and the payload.
pub struct DataCase<T> {
    pub name: String,
    pub ignore: bool,
    pub case: T,
}

/// The optional display string of a case descriptor, as a sequence.
pub open spec fn spec_case_display(name: Option<String>) -> Option<Seq<char>> {
    match name {
        Some(n) => Some(n@),
        None => None,
    }
}

/// The full name of a data-driven case: the declaration's addressable name,
/// `::`, then either `display (location)` for self-describing payloads or
/// the bare location.
pub open spec fn spec_data_case_name(
    decl: Seq<char>,
    display: Option<Seq<char>>,
    loc: Seq<char>,
) -> Seq<char> {
    match display {
        Some(n) => spec_real_name(decl) + "::"@ + n + " ("@ + loc + ")"@,
        None => spec_real_name(decl) + "::"@ + loc,
    }
}

/// Expand a data declaration's case descriptors into named cases. Every
/// case inherits the declaration's ignore flag unchanged.
pub fn render_data_test<T>(name: &str, ignore: bool, cases: Vec<DataTestCaseDesc<T>>) -> (r: Vec<
    DataCase<T>,
>)
    ensures
        r@.len() == cases@.len(),
        forall|k: int|
            0 <= k < r@.len() ==> {
                &&& (#[trigger] r@[k]).name@ == spec_data_case_name(
                    name@,
                    spec_case_display(cases@[k].name),
                    cases@[k].location@,
                )
                &&& r@[k].ignore == ignore
                &&& r@[k].case == cases@[k].case
            },
{
    let mut cases = cases;
    let ghost all_cases = cases@;
    let mut out: Vec<DataCase<T>> = Vec::new();
    let n = cases.len();
    for k in 0..n
        invariant
            n == all_cases.len(),
            cases@ == all_cases.skip(k as int),
            out@.len() == k,
            forall|j: int|
                0 <= j < k ==> {
                    &&& (#[trigger] out@[j]).name@ == spec_data_case_name(
                        name@,
                        spec_case_display(all_cases[j].name),
                        all_cases[j].location@,
                    )
                    &&& out@[j].ignore == ignore
                    &&& out@[j].case == all_cases[j].case
                },
    {
        let c = cases.remove(0);
        proof {
            assert(cases@ =~= all_cases.skip(k + 1 as int));
            assert(all_cases.skip(k as int)[0] == all_cases[k as int]);
        }
        let mut nm = real_name(name);
        nm.append("::");
        match &c.name {
            Some(display) => {
                nm.append(display.as_str());
                nm.append(" (");
                nm.append(c.location.as_str());
                nm.append(")");
            },
            None => {
                nm.append(c.location.as_str());
            },
        }
        out.push(DataCase { name: nm, ignore, case: c.case });
    }
    out
}


/// A regular (non-expanding) test declaration: it passes through the
/// orchestrator as a single case.
pub struct RegularTestDesc {
    pub name: String,
    pub ignore: bool,
    pub should_panic: RegularShouldPanic,
}

/// Whether a regular test is expected to panic, and with which message.
pub enum RegularShouldPanic {
    No,
    Yes,
    YesWithMessage(String),
}

/// The abstract value of a `RegularShouldPanic`.
#[verifier::ext_equal]
pub ghost enum PanicView {
    No,
    Yes,
    Message(Seq<char>),
}

impl View for RegularShouldPanic {
    type V = PanicView;

    open spec fn view(&self) -> PanicView {
        match self {
            RegularShouldPanic::No => PanicView::No,
            RegularShouldPanic::Yes => PanicView::Yes,
            RegularShouldPanic::YesWithMessage(m) => PanicView::Message(m@),
        }
    }
}

/// One declaration handed to the orchestrator.
pub enum DatatestTestDesc {
    Test(RegularTestDesc),
    FilesTest(FilesTestDesc),
    DataTest(crate::data::DataTestDesc),
}

/// The per-declaration inputs that only the caller can produce: the matched
/// paths and the ignore predicate's answer for each of them, for a files declaration (the
/// predicate is the caller's code), and the optional self-descriptions of a
/// data declaration's deserialized elements (the deserializer is the
/// caller's code). A regular declaration needs none.
pub enum DeclInput {
    Test,
    FilesTest { matched: Vec<String>, marks: Vec<bool> },
    DataTest { names: Vec<Option<String>> },
}

/// What a case runs: the body of a regular declaration, a files
/// declaration's body on the derived slot paths, or a data declaration's
/// body on one deserialized element.
pub enum CaseRun {
    Regular { decl: usize },
    Files { decl: usize, paths: Vec<String> },
    Data { decl: usize, element: usize },
}

/// The abstract value of a `CaseRun`.
#[verifier::ext_equal]
pub ghost enum RunView {
    Regular { decl: int },
    Files { decl: int, paths: Seq<Seq<char>> },
    Data { decl: int, element: int },
}

impl View for CaseRun {
    type V = RunView;

    open spec fn view(&self) -> RunView {
        match self {
            CaseRun::Regular { decl } => RunView::Regular { decl: *decl as int },
            CaseRun::Files { decl, paths } => RunView::Files {
                decl: *decl as int,
                paths: paths@.map_values(|p: String| p@),
            },
            CaseRun::Data { decl, element } => RunView::Data {
                decl: *decl as int,
                element: *element as int,
            },
        }
    }
}

/// One unit of the final run list: name, ignore flag, panic expectation,
/// and what to execute.
pub struct ExpandedCase {
    pub name: String,
    pub ignore: bool,
    pub should_panic: RegularShouldPanic,
    pub run: CaseRun,
}

/// The abstract value of an `ExpandedCase`.
#[verifier::ext_equal]
pub ghost struct CaseView {
    pub name: Seq<char>,
    pub ignore: bool,
    pub should_panic: PanicView,
    pub run: RunView,
}

impl View for ExpandedCase {
    type V = CaseView;

    open spec fn view(&self) -> CaseView {
        CaseView {
            name: self.name@,
            ignore: self.ignore,
            should_panic: self.should_panic@,
            run: self.run@,
        }
    }
}

/// The cases a files declaration at position `decl` expands to, one per
/// matched path, in match order.
pub open spec fn spec_files_cases(
    decl: int,
    f: FilesTestDesc,
    matched: Seq<String>,
    marks: Seq<bool>,
) -> Seq<CaseView> {
    Seq::new(
        matched.len(),
        |i: int| CaseView {
            name: spec_derived_name(f.root@, matched[i]@, f.name@),
            ignore: f.ignore || marks[i],
            should_panic: PanicView::No,
            run: RunView::Files {
                decl,
                paths: Seq::new(f.params@.len(), |j: int| spec_slot_path(f, matched[i]@, j)),
            },
        },
    )
}

/// The cases a data declaration at position `decl` expands to, one per
/// top-level element, in document order. `positions` are the element
/// source lines the position scan recovered.
pub open spec fn spec_data_cases(
    decl: int,
    dd: crate::data::DataTestDesc,
    names: Seq<Option<String>>,
    positions: Seq<usize>,
) -> Seq<CaseView> {
    Seq::new(
        positions.len(),
        |k: int| CaseView {
            name: spec_data_case_name(
                dd.name@,
                spec_case_display(names[k]),
                crate::data::spec_location(positions[k]),
            ),
            ignore: dd.ignore,
            should_panic: PanicView::No,
            run: RunView::Data { decl, element: k },
        },
    )
}

/// Whether a files declaration expands without a configuration error.
pub open spec fn spec_files_ok(f: FilesTestDesc, n_matched: nat) -> bool {
    pattern::regex_valid(f.spec_pattern()) && n_matched > 0
}

/// The configuration error a files declaration fails with: an invalid
/// pattern, or zero matches.
pub open spec fn spec_files_error(f: FilesTestDesc, n_matched: nat, e: ConfigError) -> bool {
    if !pattern::regex_valid(f.spec_pattern()) {
        (e matches ConfigError::InvalidPattern { name, pattern: pat } && name@ == f.name@ && pat@
            == f.spec_pattern())
    } else {
        n_matched == 0 && (e matches ConfigError::NoMatches { name, root, pattern: pat } && name@
            == f.name@ && root@ == f.root@ && pat@ == f.spec_pattern())
    }
}

/// Whether a data declaration with `n_names` deserialized elements expands
/// without a configuration error.
pub open spec fn spec_data_ok(dd: crate::data::DataTestDesc, n_names: nat) -> bool {
    match crate::data::yaml_event_stream(dd.source@) {
        None => false,
        Some(events) => crate::data::spec_positions(events).len() == n_names && n_names > 0,
    }
}

/// The configuration error a data declaration fails with: an unparsable
/// document, a position scan that disagrees with the deserializer's
/// element count, or an empty case list.
pub open spec fn spec_data_error(dd: crate::data::DataTestDesc, n_names: nat, e: ConfigError) -> bool {
    match crate::data::yaml_event_stream(dd.source@) {
        None => (e matches ConfigError::InvalidDocument { name, root } && name@ == dd.name@
            && root@ == dd.root@),
        Some(events) => {
            let indexed = crate::data::spec_positions(events).len();
            if indexed != n_names {
                (e matches ConfigError::IndexMismatch { name, indexed: i, elements: n } && name@
                    == dd.name@ && i == indexed as usize && n == n_names as usize)
            } else {
                n_names == 0 && (e matches ConfigError::NoCases { name } && name@ == dd.name@)
            }
        },
    }
}

/// A duplicate of a panic expectation, preserving its value.
fn duplicate_should_panic(sp: &RegularShouldPanic) -> (r: RegularShouldPanic)
    ensures
        r@ == sp@,
{
    match sp {
        RegularShouldPanic::No => RegularShouldPanic::No,
        RegularShouldPanic::Yes => RegularShouldPanic::Yes,
        RegularShouldPanic::YesWithMessage(m) => RegularShouldPanic::YesWithMessage(m.clone()),
    }
}

/// The single case a regular declaration passes through as, its descriptor
/// duplicated so the declaration itself stays valid.
fn expand_regular(decl: usize, t: &RegularTestDesc) -> (r: ExpandedCase)
    ensures
        r@ == (CaseView {
            name: t.name@,
            ignore: t.ignore,
            should_panic: t.should_panic@,
            run: RunView::Regular { decl: decl as int },
        }),
{
    ExpandedCase {
        name: t.name.clone(),
        ignore: t.ignore,
        should_panic: duplicate_should_panic(&t.should_panic),
        run: CaseRun::Regular { decl },
    }
}

/// Expand one files declaration into run-list cases.
fn expand_files_cases(
    decl: usize,
    f: &FilesTestDesc,
    matched: &Vec<String>,
    marks: &Vec<bool>,
) -> (r: Result<Vec<ExpandedCase>, ConfigError>)
    requires
        f.wf(),
        marks@.len() == matched@.len(),
        forall|i: int| 0 <= i < matched@.len() ==> f.root@.is_prefix_of(#[trigger] matched@[i]@),
    ensures
        match r {
            Ok(cs) => spec_files_ok(*f, matched@.len() as nat) && cs@.map_values(
                |c: ExpandedCase| c@,
            ) == spec_files_cases(decl as int, *f, matched@, marks@),
            Err(e) => !spec_files_ok(*f, matched@.len() as nat) && spec_files_error(
                *f,
                matched@.len() as nat,
                e,
            ),
        },
{
    if !pattern::check_pattern(f.params[f.pattern].as_str()) {
        return Err(
            ConfigError::InvalidPattern {
                name: f.name.clone(),
                pattern: f.params[f.pattern].clone(),
            },
        );
    }
    let mut file_cases = match render_files_test(f, matched, marks) {
        Ok(cs) => cs,
        Err(e) => {
            return Err(e);
        },
    };
    let ghost all_cases = file_cases@;
    let mut out: Vec<ExpandedCase> = Vec::new();
    let n = file_cases.len();
    for k in 0..n
        invariant
            n == all_cases.len(),
            file_cases@ == all_cases.skip(k as int),
            out@.len() == k,
            forall|j: int|
                0 <= j < k ==> #[trigger] out@[j]@ == (CaseView {
                    name: all_cases[j].name@,
                    ignore: all_cases[j].ignore,
                    should_panic: PanicView::No,
                    run: RunView::Files {
                        decl: decl as int,
                        paths: all_cases[j].paths@.map_values(|p: String| p@),
                    },
                }),
    {
        let fc = file_cases.remove(0);
        proof {
            assert(file_cases@ =~= all_cases.skip(k + 1 as int));
            assert(all_cases.skip(k as int)[0] == all_cases[k as int]);
        }
        out.push(
            ExpandedCase {
                name: fc.name,
                ignore: fc.ignore,
                should_panic: RegularShouldPanic::No,
                run: CaseRun::Files { decl, paths: fc.paths },
            },
        );
    }
    proof {
        assert(out@.map_values(|c: ExpandedCase| c@) =~~= spec_files_cases(
            decl as int,
            *f,
            matched@,
            marks@,
        ));
    }
    Ok(out)
}

/// Expand one data declaration into run-list cases. `names` holds the
/// optional self-description of each deserialized element, in document
/// order; its length is the deserializer's element count.
fn expand_data_cases(decl: usize, dd: &crate::data::DataTestDesc, names: &Vec<Option<String>>) -> (r:
    Result<Vec<ExpandedCase>, ConfigError>)
    ensures
        match r {
            Ok(cs) => spec_data_ok(*dd, names@.len() as nat) && (match crate::data::yaml_event_stream(
                dd.source@,
            ) {
                Some(events) => cs@.map_values(|c: ExpandedCase| c@) == spec_data_cases(
                    decl as int,
                    *dd,
                    names@,
                    crate::data::spec_positions(events),
                ),
                None => false,
            }),
            Err(e) => !spec_data_ok(*dd, names@.len() as nat) && spec_data_error(
                *dd,
                names@.len() as nat,
                e,
            ),
        },
{
    let n = names.len();
    let mut elements: Vec<usize> = Vec::new();
    for i in 0..n
        invariant
            elements@.len() == i,
            forall|j: int| 0 <= j < i ==> #[trigger] elements@[j] == j,
    {
        elements.push(i);
    }
    let descs = match crate::data::describe_test(dd.source.as_str(), elements, names) {
        Ok(descs) => descs,
        Err(crate::data::DataError::InvalidDocument) => {
            return Err(
                ConfigError::InvalidDocument { name: dd.name.clone(), root: dd.root.clone() },
            );
        },
        Err(crate::data::DataError::IndexMismatch { indexed, elements }) => {
            return Err(
                ConfigError::IndexMismatch { name: dd.name.clone(), indexed, elements },
            );
        },
        Err(crate::data::DataError::NoCases) => {
            return Err(ConfigError::NoCases { name: dd.name.clone() });
        },
    };
    let mut rendered = render_data_test(dd.name.as_str(), dd.ignore, descs);
    let ghost all_rendered = rendered@;
    let mut out: Vec<ExpandedCase> = Vec::new();
    let m = rendered.len();
    for k in 0..m
        invariant
            m == all_rendered.len(),
            rendered@ == all_rendered.skip(k as int),
            out@.len() == k,
            forall|j: int|
                0 <= j < k ==> #[trigger] out@[j]@ == (CaseView {
                    name: all_rendered[j].name@,
                    ignore: all_rendered[j].ignore,
                    should_panic: PanicView::No,
                    run: RunView::Data {
                        decl: decl as int,
                        element: all_rendered[j].case as int,
                    },
                }),
    {
        let dc = rendered.remove(0);
        proof {
            assert(rendered@ =~= all_rendered.skip(k + 1 as int));
            assert(all_rendered.skip(k as int)[0] == all_rendered[k as int]);
        }
        out.push(
            ExpandedCase {
                name: dc.name,
                ignore: dc.ignore,
                should_panic: RegularShouldPanic::No,
                run: CaseRun::Data { decl, element: dc.case },
            },
        );
    }
    proof {
        let events = crate::data::yaml_event_stream(dd.source@)->Some_0;
        assert(out@.map_values(|c: ExpandedCase| c@) =~~= spec_data_cases(
            decl as int,
            *dd,
            names@,
            crate::data::spec_positions(events),
        ));
    }
    Ok(out)
}


/// Whether a per-declaration input is of the right shape for a
/// declaration: matching kind, one mark per matched path, and every
/// matched path under the declaration's root.
pub open spec fn spec_input_fits(d: DatatestTestDesc, inp: DeclInput) -> bool {
    match d {
        DatatestTestDesc::Test(_) => inp is Test,
        DatatestTestDesc::FilesTest(f) => match inp {
            DeclInput::FilesTest { matched, marks } => {
                &&& f.wf()
                &&& marks@.len() == matched@.len()
                &&& forall|i: int|
                    0 <= i < matched@.len() ==> f.root@.is_prefix_of((#[trigger] matched@[i])@)
            },
            _ => false,
        },
        DatatestTestDesc::DataTest(_) => inp is DataTest,
    }
}

/// Whether a declaration expands without a configuration error.
pub open spec fn spec_decl_ok(d: DatatestTestDesc, inp: DeclInput) -> bool {
    match d {
        DatatestTestDesc::Test(_) => true,
        DatatestTestDesc::FilesTest(f) => match inp {
            DeclInput::FilesTest { matched, marks } => spec_files_ok(f, matched@.len() as nat),
            _ => false,
        },
        DatatestTestDesc::DataTest(dd) => match inp {
            DeclInput::DataTest { names } => spec_data_ok(dd, names@.len() as nat),
            _ => false,
        },
    }
}

/// The configuration error a declaration fails with.
pub open spec fn spec_decl_error(d: DatatestTestDesc, inp: DeclInput, e: ConfigError) -> bool {
    match d {
        DatatestTestDesc::Test(_) => false,
        DatatestTestDesc::FilesTest(f) => match inp {
            DeclInput::FilesTest { matched, marks } => spec_files_error(
                f,
                matched@.len() as nat,
                e,
            ),
            _ => false,
        },
        DatatestTestDesc::DataTest(dd) => match inp {
            DeclInput::DataTest { names } => spec_data_error(dd, names@.len() as nat, e),
            _ => false,
        },
    }
}

/// The cases one declaration contributes to the run list.
pub open spec fn spec_decl_cases(decl: int, d: DatatestTestDesc, inp: DeclInput) -> Seq<CaseView> {
    match d {
        DatatestTestDesc::Test(t) => seq![
            CaseView {
                name: t.name@,
                ignore: t.ignore,
                should_panic: t.should_panic@,
                run: RunView::Regular { decl },
            },
        ],
        DatatestTestDesc::FilesTest(f) => match inp {
            DeclInput::FilesTest { matched, marks } => spec_files_cases(decl, f, matched@, marks@),
            _ => Seq::empty(),
        },
        DatatestTestDesc::DataTest(dd) => match inp {
            DeclInput::DataTest { names } => match crate::data::yaml_event_stream(dd.source@) {
                Some(events) => spec_data_cases(
                    decl,
                    dd,
                    names@,
                    crate::data::spec_positions(events),
                ),
                None => Seq::empty(),
            },
            _ => Seq::empty(),
        },
    }
}

/// The run list of the first `n` declarations, in declaration order.
pub open spec fn spec_plan_cases(
    decls: Seq<DatatestTestDesc>,
    inputs: Seq<DeclInput>,
    n: int,
) -> Seq<CaseView>
    decreases n,
{
    if n <= 0 {
        Seq::empty()
    } else {
        spec_plan_cases(decls, inputs, n - 1) + spec_decl_cases(n - 1, decls[n - 1], inputs[n - 1])
    }
}

/// The filter options after the first `n` declarations have been expanded:
/// every files or data declaration applies its filter rewrite, in order.
pub open spec fn spec_plan_opts(decls: Seq<DatatestTestDesc>, o: OptsView, n: int) -> OptsView
    decreases n,
{
    if n <= 0 {
        o
    } else {
        let prev = spec_plan_opts(decls, o, n - 1);
        match decls[n - 1] {
            DatatestTestDesc::Test(_) => prev,
            DatatestTestDesc::FilesTest(f) => spec_adjust(prev, f.name@),
            DatatestTestDesc::DataTest(dd) => spec_adjust(prev, dd.name@),
        }
    }
}

/// A complete run: the flat case list and the (possibly rewritten) filter
/// options to run it under.
pub struct RunPlan {
    pub cases: Vec<ExpandedCase>,
    pub opts: TestOpts,
}

/// Expand every declaration, in order, into one flat run list, and apply
/// the filter rewrite of every files and data declaration. The first
/// declaration that fails aborts the whole run with its configuration
/// error, before any case could execute.
pub fn plan_run(decls: &Vec<DatatestTestDesc>, inputs: &Vec<DeclInput>, opts: TestOpts) -> (r:
    Result<RunPlan, ConfigError>)
    requires
        inputs@.len() == decls@.len(),
        forall|d: int| 0 <= d < decls@.len() ==> spec_input_fits(#[trigger] decls@[d], inputs@[d]),
    ensures
        match r {
            Ok(plan) => {
                &&& forall|d: int|
                    0 <= d < decls@.len() ==> spec_decl_ok(#[trigger] decls@[d], inputs@[d])
                &&& plan.cases@.map_values(|c: ExpandedCase| c@) == spec_plan_cases(
                    decls@,
                    inputs@,
                    decls@.len() as int,
                )
                &&& plan.opts@ == spec_plan_opts(decls@, opts@, decls@.len() as int)
            },
            Err(e) => exists|d: int|
                #![trigger decls@[d]]
                0 <= d < decls@.len() && spec_decl_error(decls@[d], inputs@[d], e)
                    && !spec_decl_ok(decls@[d], inputs@[d]) && (forall|j: int|
                    0 <= j < d ==> spec_decl_ok(#[trigger] decls@[j], inputs@[j])),
        },
{
    let mut opts = opts;
    let ghost opts0 = opts@;
    let mut cases: Vec<ExpandedCase> = Vec::new();
    let n = decls.len();
    for d in 0..n
        invariant
            n == decls@.len(),
            inputs@.len() == decls@.len(),
            forall|j: int|
                0 <= j < decls@.len() ==> spec_input_fits(#[trigger] decls@[j], inputs@[j]),
            forall|j: int| 0 <= j < d ==> spec_decl_ok(#[trigger] decls@[j], inputs@[j]),
            cases@.map_values(|c: ExpandedCase| c@) == spec_plan_cases(decls@, inputs@, d as int),
            opts@ == spec_plan_opts(decls@, opts0, d as int),
    {
        match &decls[d] {
            DatatestTestDesc::Test(t) => {
                let c = expand_regular(d, t);
                cases.push(c);
                proof {
                    assert(cases@.map_values(|c: ExpandedCase| c@) =~~= spec_plan_cases(
                        decls@,
                        inputs@,
                        d + 1 as int,
                    ));
                }
            },
            DatatestTestDesc::FilesTest(f) => {
                match &inputs[d] {
                    DeclInput::FilesTest { matched, marks } => {
                        let mut new_cases = match expand_files_cases(d, f, matched, marks) {
                            Ok(cs) => cs,
                            Err(e) => {
                                proof {
                                    let gd = d as int;
                                    assert(spec_decl_error(decls@[gd], inputs@[gd], e));
                                    assert(!spec_decl_ok(decls@[gd], inputs@[gd]));
                                }
                                return Err(e);
                            },
                        };
                        cases.append(&mut new_cases);
                        adjust_for_test_name(&mut opts, f.name.as_str());
                        proof {
                            assert(cases@.map_values(|c: ExpandedCase| c@) =~~= spec_plan_cases(
                                decls@,
                                inputs@,
                                d + 1 as int,
                            ));
                        }
                    },
                    _ => {
                        proof {
                            assert(false);
                        }
                    },
                }
            },
            DatatestTestDesc::DataTest(dd) => {
                match &inputs[d] {
                    DeclInput::DataTest { names } => {
                        let mut new_cases = match expand_data_cases(d, dd, names) {
                            Ok(cs) => cs,
                            Err(e) => {
                                proof {
                                    let gd = d as int;
                                    assert(spec_decl_error(decls@[gd], inputs@[gd], e));
                                    assert(!spec_decl_ok(decls@[gd], inputs@[gd]));
                                }
                                return Err(e);
                            },
                        };
                        cases.append(&mut new_cases);
                        adjust_for_test_name(&mut opts, dd.name.as_str());
                        proof {
                            assert(cases@.map_values(|c: ExpandedCase| c@) =~~= spec_plan_cases(
                                decls@,
                                inputs@,
                                d + 1 as int,
                            ));
                        }
                    },
                    _ => {
                        proof {
                            assert(false);
                        }
                    },
                }
            },
        }
    }
    Ok(RunPlan { cases, opts })
}

/// Turn the executor's report into the run's outcome: success when every
/// case passed; a failure message when some case failed; a distinct fatal
/// message when the executor itself hit an I/O error.
pub fn interpret_run_result(result: Result<bool, String>) -> (r: Result<(), String>)
    ensures
        match result {
            Ok(true) => r is Ok,
            Ok(false) => r matches Err(m) && m@ == "Some tests failed"@,
            Err(e) => r matches Err(m) && m@ == "io error when running tests: "@ + e@,
        },
{
    match result {
        Ok(true) => Ok(()),
        Ok(false) => Err(String::from_str("Some tests failed")),
        Err(e) => {
            let mut m = String::from_str("io error when running tests: ");
            m.append(e.as_str());
            Err(m)
        },
    }
}

/// `code` rendered in decimal, with a sign when negative.
pub open spec fn spec_signed_decimal(code: int) -> Seq<char> {
    if code < 0 {
        "-"@ + text::spec_decimal((-code) as nat)
    } else {
        text::spec_decimal(code as nat)
    }
}

/// Judge a test body's termination code: zero passes, anything else
/// fails with a message naming the code.
pub fn assert_test_result(code: i32) -> (r: Result<(), String>)
    ensures
        code == 0 ==> r is Ok,
        code != 0 ==> (r matches Err(m) && m@
            == "the test returned a termination value with a non-zero status code ("@
            + spec_signed_decimal(code as int) + ") which indicates a failure"@),
{
    if code == 0 {
        return Ok(());
    }
    let mut m = String::from_str(
        "the test returned a termination value with a non-zero status code (",
    );
    if code < 0 {
        m.append("-");
        let mag: usize = (-(code as i64)) as usize;
        let digits = text::decimal_string(mag);
        m.append(digits.as_str());
    } else {
        let digits = text::decimal_string(code as usize);
        m.append(digits.as_str());
    }
    m.append(") which indicates a failure");
    Err(m)
}


/// Of the paths handed to the matcher, only those whose full path matches
/// the pattern are kept; no path with a component below the root beginning
/// with `.` — a hidden file, or anything inside a hidden directory — is
/// ever kept, regardless of match; and every matching path without a
/// hidden component is kept.
pub proof fn lemma_find_matches_members(root: Seq<char>, pat: Seq<char>, scanned: Seq<String>)
    ensures
        forall|i: int|
            0 <= i < scanned.filter(spec_match_pred(root, pat)).len() ==> text::spec_no_hidden(
                text::spec_relative(
                    root,
                    (#[trigger] scanned.filter(spec_match_pred(root, pat))[i])@,
                ),
            ) && pattern::regex_match(pat, scanned.filter(spec_match_pred(root, pat))[i]@),
        forall|i: int|
            0 <= i < scanned.len() && text::spec_no_hidden(
                text::spec_relative(root, (#[trigger] scanned[i])@),
            ) && pattern::regex_match(pat, scanned[i]@) ==> scanned.filter(
                spec_match_pred(root, pat),
            ).contains(scanned[i]),
{
    broadcast use vstd::seq_lib::group_filter_ensures;

    assert(scanned.filter(spec_match_pred(root, pat)).len() <= scanned.len());
}

/// A files declaration whose pattern matched no file never expands
/// successfully: together with `plan_run`'s contract, the whole run aborts
/// before any case executes.
pub proof fn lemma_zero_matches_aborts(f: FilesTestDesc, inp: DeclInput)
    requires
        inp matches DeclInput::FilesTest { matched, marks } && matched@.len() == 0,
    ensures
        !spec_decl_ok(DatatestTestDesc::FilesTest(f), inp),
{
}

/// A data declaration whose document yields no cases never expands
/// successfully: together with `plan_run`'s contract, the whole run aborts
/// before any case executes.
pub proof fn lemma_zero_cases_aborts(dd: crate::data::DataTestDesc, inp: DeclInput)
    requires
        inp matches DeclInput::DataTest { names } && names@.len() == 0,
    ensures
        !spec_decl_ok(DatatestTestDesc::DataTest(dd), inp),
{
}

/// Whenever a data declaration expands, the position scan found exactly
/// one position per deserialized element: a count disagreement is a
/// configuration error, never a silently misaligned zip.
pub proof fn lemma_positions_match_elements(dd: crate::data::DataTestDesc, n: nat)
    requires
        spec_data_ok(dd, n),
    ensures
        crate::data::yaml_event_stream(dd.source@) matches Some(events)
            && crate::data::spec_positions(events).len() == n,
{
}


/// View any of the three declaration descriptors as one `DatatestTestDesc`,
/// duplicating the descriptor so the original stays valid for repeated
/// reference.
pub trait TestDescriptor {
    fn as_datatest_desc(&self) -> DatatestTestDesc;
}

impl TestDescriptor for RegularTestDesc {
    fn as_datatest_desc(&self) -> (r: DatatestTestDesc)
        ensures
            r matches DatatestTestDesc::Test(t) && t.name@ == self.name@ && t.ignore
                == self.ignore && t.should_panic@ == self.should_panic@,
    {
        DatatestTestDesc::Test(
            RegularTestDesc {
                name: self.name.clone(),
                ignore: self.ignore,
                should_panic: duplicate_should_panic(&self.should_panic),
            },
        )
    }
}

impl TestDescriptor for FilesTestDesc {
    fn as_datatest_desc(&self) -> (r: DatatestTestDesc)
        ensures
            r matches DatatestTestDesc::FilesTest(f) && f.name@ == self.name@ && f.ignore
                == self.ignore && f.root@ == self.root@ && f.pattern == self.pattern
                && f.params@.len() == self.params@.len() && (forall|j: int|
                0 <= j < self.params@.len() ==> (#[trigger] f.params@[j])@ == self.params@[j]@),
    {
        let mut params: Vec<String> = Vec::new();
        for j in 0..self.params.len()
            invariant
                params@.len() == j,
                forall|k: int|
                    0 <= k < j ==> (#[trigger] params@[k])@ == self.params@[k]@,
        {
            let p = self.params[j].clone();
            params.push(p);
        }
        DatatestTestDesc::FilesTest(
            FilesTestDesc {
                name: self.name.clone(),
                ignore: self.ignore,
                root: self.root.clone(),
                params,
                pattern: self.pattern,
            },
        )
    }
}

impl TestDescriptor for crate::data::DataTestDesc {
    fn as_datatest_desc(&self) -> (r: DatatestTestDesc)
        ensures
            r matches DatatestTestDesc::DataTest(dd) && dd.name@ == self.name@ && dd.ignore
                == self.ignore && dd.root@ == self.root@ && dd.source@ == self.source@,
    {
        DatatestTestDesc::DataTest(
            crate::data::DataTestDesc {
                name: self.name.clone(),
                ignore: self.ignore,
                root: self.root.clone(),
                source: self.source.clone(),
            },
        )
    }
}

} // verus!
