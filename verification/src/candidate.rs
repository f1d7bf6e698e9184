use vstd::prelude::*;
use vstd::string::StrSliceExecFns;
use crate::content::{Library, MultiFileContent, RequestContent, SourceFile};
use crate::evm::EvmVersion;
use crate::metadata::MetadataVariant;

verus! {

/// The dialect one compiler invocation handles: a single invocation cannot
/// mix the primary language with the intermediate one.
#[derive(Debug, Clone, Copy, PartialEq, Eq, Structural)]
pub enum Language {
    Solidity,
    Yul,
}

/// One row of a per-file library table: the named library is linked at the
/// given address when compiling the given file.
#[derive(Debug, Clone, PartialEq, Eq)]
pub struct FileLibrary {
    pub file: String,
    pub name: String,
    pub address: String,
}

/// The settings one compile attempt runs under. A fresh value is built per
/// attempt; attempts never share a mutable settings object.
#[derive(Debug, Clone, PartialEq, Eq)]
pub struct Settings {
    pub optimizer_enabled: bool,
    pub optimizer_runs: Option<usize>,
    pub evm_version: Option<EvmVersion>,
    pub libraries: Vec<FileLibrary>,
    pub metadata: MetadataVariant,
    pub output_selection: Vec<String>,
}

/// Every candidate asks the compiler for these artifacts, whichever
/// candidate ends up matching: downstream consumers need the ABI, both
/// bytecodes and the method-identifier table regardless.
pub open spec fn outputs_ok(v: Seq<String>) -> bool {
    &&& v.len() == 4
    &&& v[0]@ == "abi"@
    &&& v[1]@ == "evm.bytecode"@
    &&& v[2]@ == "evm.deployedBytecode"@
    &&& v[3]@ == "evm.methodIdentifiers"@
}

/// One fully-specified compiler input for a single dialect.
#[derive(Debug, Clone, PartialEq, Eq)]
pub struct CompilerInput {
    pub language: Language,
    pub sources: Vec<SourceFile>,
    pub settings: Settings,
}

/// One candidate the search may attempt: a structured input built from a
/// multi-file submission, or a pre-assembled document carried verbatim.
#[derive(Debug, Clone, PartialEq, Eq)]
pub enum Candidate {
    Structured(CompilerInput),
    Document(String),
}

/// Paths ending in `.yul` hold the intermediate dialect; everything else is
/// primary-language source.
pub open spec fn is_yul_path(p: Seq<char>) -> bool {
    p.len() >= 4 && p.subrange(p.len() - 4, p.len() as int) == ".yul"@
}

/// The primary-language files, in first-seen order.
pub open spec fn sol_files(s: Seq<SourceFile>) -> Seq<SourceFile>
    decreases s.len(),
{
    if s.len() == 0 {
        Seq::empty()
    } else if is_yul_path(s.last().path@) {
        sol_files(s.drop_last())
    } else {
        sol_files(s.drop_last()).push(s.last())
    }
}

/// The intermediate-dialect files, in first-seen order.
pub open spec fn yul_files(s: Seq<SourceFile>) -> Seq<SourceFile>
    decreases s.len(),
{
    if s.len() == 0 {
        Seq::empty()
    } else if is_yul_path(s.last().path@) {
        yul_files(s.drop_last()).push(s.last())
    } else {
        yul_files(s.drop_last())
    }
}

pub open spec fn libs_of(c: MultiFileContent) -> Seq<Library> {
    match c.contract_libraries {
        None => Seq::empty(),
        Some(v) => v@,
    }
}

/// The library rows for one file: the whole library map attached to it.
pub open spec fn rows_for(f: SourceFile, libs: Seq<Library>) -> Seq<FileLibrary> {
    libs.map_values(|l: Library| FileLibrary { file: f.path, name: l.name, address: l.address })
}

/// The full per-file library table: nothing says which file declares a
/// library, so every file of the submission may, and each gets the whole
/// map. A conservative over-approximation; the linker ignores spare rows.
pub open spec fn lib_rows(sources: Seq<SourceFile>, libs: Seq<Library>) -> Seq<FileLibrary>
    decreases sources.len(),
{
    if sources.len() == 0 {
        Seq::empty()
    } else {
        lib_rows(sources.drop_last(), libs) + rows_for(sources.last(), libs)
    }
}

/// The settings every candidate of a submission starts from: optimizer on
/// exactly when a run count was given, the requested EVM target, the full
/// library table, and no metadata variant selected yet.
pub open spec fn settings_match(s: Settings, c: MultiFileContent) -> bool {
    &&& s.optimizer_enabled == (c.optimization_runs is Some)
    &&& s.optimizer_runs == c.optimization_runs
    &&& s.evm_version == c.evm_version
    &&& s.metadata == MetadataVariant::NoSelection
    &&& s.libraries@ == lib_rows(c.sources@, libs_of(c))
    &&& outputs_ok(s.output_selection@)
}

pub open spec fn structured_candidate(
    cand: Candidate,
    lang: Language,
    files: Seq<SourceFile>,
    c: MultiFileContent,
) -> bool {
    &&& cand matches Candidate::Structured(ci)
    &&& ci.language == lang
    &&& ci.sources@ == files
    &&& settings_match(ci.settings, c)
}

/// What the Candidate Builder owes: one verbatim candidate for a document,
/// and for a multi-file submission one candidate per non-empty dialect
/// partition, primary language first.
pub open spec fn candidates_ok(content: RequestContent, r: Seq<Candidate>) -> bool {
    match content {
        RequestContent::StandardJson(sj) => {
            &&& r.len() == 1
            &&& r[0] matches Candidate::Document(d) && d@ == sj.input@
        },
        RequestContent::MultiFile(c) => {
            let sol = sol_files(c.sources@);
            let yul = yul_files(c.sources@);
            if sol.len() > 0 && yul.len() > 0 {
                &&& r.len() == 2
                &&& structured_candidate(r[0], Language::Solidity, sol, c)
                &&& structured_candidate(r[1], Language::Yul, yul, c)
            } else if sol.len() > 0 {
                r.len() == 1 && structured_candidate(r[0], Language::Solidity, sol, c)
            } else if yul.len() > 0 {
                r.len() == 1 && structured_candidate(r[0], Language::Yul, yul, c)
            } else {
                r.len() == 0
            }
        },
    }
}

/// Whether a path names an intermediate-dialect file.
fn is_yul_name(p: &str) -> (r: bool)
    ensures
        r == is_yul_path(p@),
{
    let n = p.unicode_len();
    if n < 4 {
        return false;
    }
    proof {
        reveal_strlit(".yul");
    }
    let r = p.get_char(n - 4) == '.' && p.get_char(n - 3) == 'y' && p.get_char(n - 2) == 'u'
        && p.get_char(n - 1) == 'l';
    proof {
        if r {
            assert(p@.subrange(n - 4, n as int) =~= ".yul"@);
        } else {
            assert(p@.subrange(n - 4, n as int) != ".yul"@) by {
                if p@.subrange(n - 4, n as int) == ".yul"@ {
                    assert(p@.subrange(n - 4, n as int)[0] == '.');
                    assert(p@.subrange(n - 4, n as int)[1] == 'y');
                    assert(p@.subrange(n - 4, n as int)[2] == 'u');
                    assert(p@.subrange(n - 4, n as int)[3] == 'l');
                }
            }
        }
    }
    r
}

fn clone_source(f: &SourceFile) -> (r: SourceFile)
    ensures
        r == *f,
{
    SourceFile { path: f.path.clone(), content: f.content.clone() }
}

/// Splits a submission's files into the two dialect partitions, keeping
/// first-seen order inside each.
fn partition_sources(sources: &Vec<SourceFile>) -> (r: (Vec<SourceFile>, Vec<SourceFile>))
    ensures
        r.0@ == sol_files(sources@),
        r.1@ == yul_files(sources@),
{
    let mut sol: Vec<SourceFile> = Vec::new();
    let mut yul: Vec<SourceFile> = Vec::new();
    let n = sources.len();
    let mut i: usize = 0;
    while i < n
        invariant
            n == sources@.len(),
            0 <= i <= n,
            sol@ == sol_files(sources@.take(i as int)),
            yul@ == yul_files(sources@.take(i as int)),
        decreases n - i,
    {
        let f = clone_source(&sources[i]);
        proof {
            assert(sources@.take(i as int + 1).drop_last() =~= sources@.take(i as int));
            assert(sources@.take(i as int + 1).last() == sources@[i as int]);
        }
        if is_yul_name(f.path.as_str()) {
            yul.push(f);
        } else {
            sol.push(f);
        }
        i += 1;
    }
    proof {
        assert(sources@.take(n as int) =~= sources@);
    }
    (sol, yul)
}

/// Builds the per-file library table rows.
fn build_lib_rows(sources: &Vec<SourceFile>, libs: &Vec<Library>) -> (r: Vec<FileLibrary>)
    ensures
        r@ == lib_rows(sources@, libs@),
{
    let mut rows: Vec<FileLibrary> = Vec::new();
    let n = sources.len();
    let m = libs.len();
    let mut i: usize = 0;
    while i < n
        invariant
            n == sources@.len(),
            m == libs@.len(),
            0 <= i <= n,
            rows@ == lib_rows(sources@.take(i as int), libs@),
        decreases n - i,
    {
        let mut j: usize = 0;
        while j < m
            invariant
                n == sources@.len(),
                m == libs@.len(),
                0 <= i < n,
                0 <= j <= m,
                rows@ == lib_rows(sources@.take(i as int), libs@) + rows_for(
                    sources@[i as int],
                    libs@,
                ).take(j as int),
            decreases m - j,
        {
            let row = FileLibrary {
                file: sources[i].path.clone(),
                name: libs[j].name.clone(),
                address: libs[j].address.clone(),
            };
            proof {
                assert(rows_for(sources@[i as int], libs@)[j as int] == row);
                assert(rows_for(sources@[i as int], libs@).take(j as int + 1) =~= rows_for(
                    sources@[i as int],
                    libs@,
                ).take(j as int).push(row));
            }
            rows.push(row);
            j += 1;
        }
        proof {
            assert(rows_for(sources@[i as int], libs@).take(m as int) =~= rows_for(
                sources@[i as int],
                libs@,
            ));
            assert(sources@.take(i as int + 1).drop_last() =~= sources@.take(i as int));
            assert(sources@.take(i as int + 1).last() == sources@[i as int]);
        }
        i += 1;
    }
    proof {
        assert(sources@.take(n as int) =~= sources@);
    }
    rows
}

/// Builds the settings every candidate of this submission starts from.
fn make_settings(c: &MultiFileContent) -> (r: Settings)
    ensures
        settings_match(r, *c),
{
    let libraries: Vec<FileLibrary> = match &c.contract_libraries {
        Some(libs) => build_lib_rows(&c.sources, libs),
        None => Vec::new(),
    };
    proof {
        if c.contract_libraries is None {
            assert(lib_rows_empty(c.sources@) =~= Seq::<FileLibrary>::empty()) by {
                lemma_lib_rows_no_libs(c.sources@);
            }
        }
    }
    let mut output_selection: Vec<String> = Vec::new();
    output_selection.push("abi".to_owned());
    output_selection.push("evm.bytecode".to_owned());
    output_selection.push("evm.deployedBytecode".to_owned());
    output_selection.push("evm.methodIdentifiers".to_owned());
    Settings {
        optimizer_enabled: c.optimization_runs.is_some(),
        optimizer_runs: c.optimization_runs,
        evm_version: c.evm_version,
        libraries,
        metadata: MetadataVariant::NoSelection,
        output_selection,
    }
}

spec fn lib_rows_empty(sources: Seq<SourceFile>) -> Seq<FileLibrary> {
    lib_rows(sources, Seq::empty())
}

proof fn lemma_lib_rows_no_libs(sources: Seq<SourceFile>)
    ensures
        lib_rows(sources, Seq::<Library>::empty()) =~= Seq::<FileLibrary>::empty(),
    decreases sources.len(),
{
    if sources.len() > 0 {
        lemma_lib_rows_no_libs(sources.drop_last());
    }
}

/// Turns request content into the ordered candidate list the search walks:
/// the Candidate Builder. Pure and total; it never alters the caller's
/// sources, only copies them.
pub fn build_candidates(content: &RequestContent) -> (r: Vec<Candidate>)
    ensures
        candidates_ok(*content, r@),
{
    match content {
        RequestContent::StandardJson(sj) => {
            let mut out: Vec<Candidate> = Vec::new();
            out.push(Candidate::Document(sj.input.clone()));
            out
        },
        RequestContent::MultiFile(c) => {
            let parts = partition_sources(&c.sources);
            let sol = parts.0;
            let yul = parts.1;
            let mut out: Vec<Candidate> = Vec::new();
            if sol.len() > 0 {
                let settings = make_settings(c);
                out.push(
                    Candidate::Structured(
                        CompilerInput { language: Language::Solidity, sources: sol, settings },
                    ),
                );
            }
            if yul.len() > 0 {
                let settings = make_settings(c);
                out.push(
                    Candidate::Structured(
                        CompilerInput { language: Language::Yul, sources: yul, settings },
                    ),
                );
            }
            out
        },
    }
}

/// What applying a metadata variant to a candidate owes: everything carried
/// over unchanged but the metadata slot, which holds the variant.
pub open spec fn applied_ok(r: Candidate, cand: Candidate, variant: MetadataVariant) -> bool {
    match cand {
        Candidate::Structured(ci) => {
            &&& r matches Candidate::Structured(a)
            &&& a.language == ci.language
            &&& a.sources@ == ci.sources@
            &&& a.settings.optimizer_enabled == ci.settings.optimizer_enabled
            &&& a.settings.optimizer_runs == ci.settings.optimizer_runs
            &&& a.settings.evm_version == ci.settings.evm_version
            &&& a.settings.libraries@ == ci.settings.libraries@
            &&& a.settings.output_selection@.len() == ci.settings.output_selection@.len()
            &&& (forall|k: int|
                0 <= k < a.settings.output_selection@.len()
                    ==> #[trigger] a.settings.output_selection@[k]@
                    == ci.settings.output_selection@[k]@)
            &&& a.settings.metadata == variant
        },
        Candidate::Document(d) => r matches Candidate::Document(d2) && d2@ == d@,
    }
}

fn clone_sources(v: &Vec<SourceFile>) -> (r: Vec<SourceFile>)
    ensures
        r@ == v@,
{
    let mut r: Vec<SourceFile> = Vec::new();
    let n = v.len();
    let mut i: usize = 0;
    while i < n
        invariant
            n == v@.len(),
            0 <= i <= n,
            r@ == v@.take(i as int),
        decreases n - i,
    {
        r.push(clone_source(&v[i]));
        proof {
            assert(v@.take(i as int + 1) =~= v@.take(i as int).push(v@[i as int]));
        }
        i += 1;
    }
    proof {
        assert(v@.take(n as int) =~= v@);
    }
    r
}

fn clone_rows(v: &Vec<FileLibrary>) -> (r: Vec<FileLibrary>)
    ensures
        r@ == v@,
{
    let mut r: Vec<FileLibrary> = Vec::new();
    let n = v.len();
    let mut i: usize = 0;
    while i < n
        invariant
            n == v@.len(),
            0 <= i <= n,
            r@ == v@.take(i as int),
        decreases n - i,
    {
        r.push(
            FileLibrary {
                file: v[i].file.clone(),
                name: v[i].name.clone(),
                address: v[i].address.clone(),
            },
        );
        proof {
            assert(v@.take(i as int + 1) =~= v@.take(i as int).push(v@[i as int]));
        }
        i += 1;
    }
    proof {
        assert(v@.take(n as int) =~= v@);
    }
    r
}

fn clone_strings(v: &Vec<String>) -> (r: Vec<String>)
    ensures
        r@.len() == v@.len(),
        forall|k: int| 0 <= k < v@.len() ==> #[trigger] r@[k]@ == v@[k]@,
{
    let mut r: Vec<String> = Vec::new();
    let n = v.len();
    let mut i: usize = 0;
    while i < n
        invariant
            n == v@.len(),
            0 <= i <= n,
            r@.len() == i,
            forall|k: int| 0 <= k < i ==> #[trigger] r@[k]@ == v@[k]@,
        decreases n - i,
    {
        r.push(v[i].clone());
        i += 1;
    }
    r
}

/// Builds the compiler input of one attempt: the candidate's settings
/// copied afresh with the attempt's metadata variant set. Attempts never
/// share a settings value, so no attempt can contaminate the next.
pub fn apply_variant(cand: &Candidate, variant: MetadataVariant) -> (r: Candidate)
    ensures
        applied_ok(r, *cand, variant),
{
    match cand {
        Candidate::Structured(ci) => Candidate::Structured(
            CompilerInput {
                language: ci.language,
                sources: clone_sources(&ci.sources),
                settings: Settings {
                    optimizer_enabled: ci.settings.optimizer_enabled,
                    optimizer_runs: ci.settings.optimizer_runs,
                    evm_version: ci.settings.evm_version,
                    libraries: clone_rows(&ci.settings.libraries),
                    metadata: variant,
                    output_selection: clone_strings(&ci.settings.output_selection),
                },
            },
        ),
        Candidate::Document(d) => Candidate::Document(d.clone()),
    }
}

/// Observable equality of settings: every field, the library table by its
/// rows.
pub open spec fn settings_equiv(a: Settings, b: Settings) -> bool {
    &&& a.optimizer_enabled == b.optimizer_enabled
    &&& a.optimizer_runs == b.optimizer_runs
    &&& a.evm_version == b.evm_version
    &&& a.metadata == b.metadata
    &&& a.libraries@ == b.libraries@
    &&& a.output_selection@.len() == b.output_selection@.len()
    &&& (forall|k: int|
        0 <= k < a.output_selection@.len() ==> #[trigger] a.output_selection@[k]@
            == b.output_selection@[k]@)
}

/// Observable equality of candidates: same form, same dialect, same
/// sources, same settings.
pub open spec fn candidate_equiv(a: Candidate, b: Candidate) -> bool {
    match a {
        Candidate::Structured(x) => b matches Candidate::Structured(y) && x.language == y.language
            && x.sources@ == y.sources@ && settings_equiv(x.settings, y.settings),
        Candidate::Document(d) => b matches Candidate::Document(e) && d@ == e@,
    }
}

/// The Candidate Builder is deterministic: its contract pins the list, so
/// any two lists built from the same content agree in length, order, and
/// every observable field, the settings included.
pub proof fn lemma_candidates_deterministic(
    content: RequestContent,
    r1: Seq<Candidate>,
    r2: Seq<Candidate>,
)
    requires
        candidates_ok(content, r1),
        candidates_ok(content, r2),
    ensures
        r1.len() == r2.len(),
        forall|i: int| 0 <= i < r1.len() ==> candidate_equiv(#[trigger] r1[i], r2[i]),
{
}

proof fn lemma_sol_files_all_sol(s: Seq<SourceFile>)
    ensures
        forall|i: int|
            0 <= i < sol_files(s).len() ==> !is_yul_path(#[trigger] sol_files(s)[i].path@),
    decreases s.len(),
{
    if s.len() > 0 {
        lemma_sol_files_all_sol(s.drop_last());
        assert forall|i: int| 0 <= i < sol_files(s).len() implies !is_yul_path(
            #[trigger] sol_files(s)[i].path@,
        ) by {
            if !is_yul_path(s.last().path@) && i < sol_files(s).len() - 1 {
                assert(sol_files(s)[i] == sol_files(s.drop_last())[i]);
            }
        }
    }
}

proof fn lemma_yul_files_all_yul(s: Seq<SourceFile>)
    ensures
        forall|i: int| 0 <= i < yul_files(s).len() ==> is_yul_path(#[trigger] yul_files(s)[i].path@),
    decreases s.len(),
{
    if s.len() > 0 {
        lemma_yul_files_all_yul(s.drop_last());
        assert forall|i: int| 0 <= i < yul_files(s).len() implies is_yul_path(
            #[trigger] yul_files(s)[i].path@,
        ) by {
            if is_yul_path(s.last().path@) && i < yul_files(s).len() - 1 {
                assert(yul_files(s)[i] == yul_files(s.drop_last())[i]);
            }
        }
    }
}

proof fn lemma_sol_files_has(s: Seq<SourceFile>, k: int)
    requires
        0 <= k < s.len(),
        !is_yul_path(s[k].path@),
    ensures
        sol_files(s).len() > 0,
    decreases s.len(),
{
    if k < s.len() - 1 {
        lemma_sol_files_has(s.drop_last(), k);
    }
}

proof fn lemma_yul_files_has(s: Seq<SourceFile>, k: int)
    requires
        0 <= k < s.len(),
        is_yul_path(s[k].path@),
    ensures
        yul_files(s).len() > 0,
    decreases s.len(),
{
    if k < s.len() - 1 {
        lemma_yul_files_has(s.drop_last(), k);
    }
}

/// Splitting a bundle that holds both dialects yields exactly two
/// candidates: the first carries only primary-language files, the second
/// only intermediate-dialect files.
pub proof fn lemma_two_dialect_split(c: MultiFileContent, r: Seq<Candidate>, ks: int, ky: int)
    requires
        candidates_ok(RequestContent::MultiFile(c), r),
        0 <= ks < c.sources@.len(),
        !is_yul_path(c.sources@[ks].path@),
        0 <= ky < c.sources@.len(),
        is_yul_path(c.sources@[ky].path@),
    ensures
        r.len() == 2,
        r[0] matches Candidate::Structured(a) && a.language == Language::Solidity && (forall|
            i: int,
        |
            0 <= i < a.sources@.len() ==> !is_yul_path(#[trigger] a.sources@[i].path@)),
        r[1] matches Candidate::Structured(b) && b.language == Language::Yul && (forall|i: int|
            0 <= i < b.sources@.len() ==> is_yul_path(#[trigger] b.sources@[i].path@)),
{
    lemma_sol_files_has(c.sources@, ks);
    lemma_yul_files_has(c.sources@, ky);
    lemma_sol_files_all_sol(c.sources@);
    lemma_yul_files_all_yul(c.sources@);
}

proof fn lemma_lib_rows_len(sources: Seq<SourceFile>, libs: Seq<Library>)
    ensures
        lib_rows(sources, libs).len() == sources.len() * libs.len(),
    decreases sources.len(),
{
    if sources.len() > 0 {
        lemma_lib_rows_len(sources.drop_last(), libs);
        assert((sources.len() - 1) * libs.len() + libs.len() == sources.len() * libs.len())
            by (nonlinear_arith);
    }
}

proof fn lemma_lib_rows_index(sources: Seq<SourceFile>, libs: Seq<Library>, f: int, l: int)
    requires
        0 <= f < sources.len(),
        0 <= l < libs.len(),
    ensures
        0 <= f * libs.len() + l < lib_rows(sources, libs).len(),
        lib_rows(sources, libs)[f * libs.len() + l] == (FileLibrary {
            file: sources[f].path,
            name: libs[l].name,
            address: libs[l].address,
        }),
    decreases sources.len(),
{
    lemma_lib_rows_len(sources, libs);
    assert(0 <= f * libs.len() + l < sources.len() * libs.len()) by (nonlinear_arith)
        requires
            0 <= f < sources.len(),
            0 <= l < libs.len(),
    ;
    lemma_lib_rows_len(sources.drop_last(), libs);
    if f == sources.len() - 1 {
        assert(f * libs.len() == (sources.len() - 1) * libs.len());
        assert(lib_rows(sources, libs)[f * libs.len() + l] == rows_for(sources.last(), libs)[l]);
    } else {
        lemma_lib_rows_index(sources.drop_last(), libs, f, l);
        assert(f * libs.len() + l < (sources.len() - 1) * libs.len()) by (nonlinear_arith)
            requires
                0 <= f < sources.len() - 1,
                0 <= l < libs.len(),
        ;
        assert(sources.drop_last()[f] == sources[f]);
    }
}

/// Library-address inference: a library map with no declared owner file is
/// attached in full to every source file of the submission, in every
/// emitted candidate's library table.
pub proof fn lemma_library_inference(
    c: MultiFileContent,
    r: Seq<Candidate>,
    i: int,
    f: int,
    l: int,
)
    requires
        candidates_ok(RequestContent::MultiFile(c), r),
        0 <= i < r.len(),
        0 <= f < c.sources@.len(),
        0 <= l < libs_of(c).len(),
    ensures
        r[i] matches Candidate::Structured(a) && exists|k: int|
            0 <= k < a.settings.libraries@.len() && a.settings.libraries@[k] == (FileLibrary {
                file: c.sources@[f].path,
                name: libs_of(c)[l].name,
                address: libs_of(c)[l].address,
            }),
{
    lemma_lib_rows_index(c.sources@, libs_of(c), f, l);
    let row = FileLibrary {
        file: c.sources@[f].path,
        name: libs_of(c)[l].name,
        address: libs_of(c)[l].address,
    };
    let sol = sol_files(c.sources@);
    let yul = yul_files(c.sources@);
    assert(r[i] matches Candidate::Structured(a) && a.settings.libraries@ == lib_rows(
        c.sources@,
        libs_of(c),
    ));
    match r[i] {
        Candidate::Structured(a) => {
            assert(a.settings.libraries@[f * libs_of(c).len() + l] == row);
        },
        Candidate::Document(_) => {
            assert(false);
        },
    }
}

} // verus!
