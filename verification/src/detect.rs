//! Compiler detection: classifying an executable as a Rust compiler, one of
//! the C-family dialects, or unknown, from the output of its probes; and the
//! per-server detection cache, invalidated whenever the executable's
//! last-modified time changes.

use vstd::prelude::*;

use crate::kinds::CCompilerKind;
use crate::kinds::CompilerKind;
use crate::kinds::ExitStatus;
use crate::kvmap::KvMap;

verus! {

/// Index of the first newline in `s`, or its length when there is none.
pub open spec fn spec_first_newline(s: Seq<char>) -> int
    decreases s.len(),
{
    if s.len() == 0 {
        0
    } else if s[0] == '\n' {
        0
    } else {
        1 + spec_first_newline(s.drop_first())
    }
}

proof fn lemma_first_newline(s: Seq<char>)
    ensures
        0 <= spec_first_newline(s) <= s.len(),
        spec_first_newline(s) < s.len() ==> s[spec_first_newline(s)] == '\n',
        forall|j: int| 0 <= j < spec_first_newline(s) ==> s[j] != '\n',
    decreases s.len(),
{
    if s.len() > 0 && s[0] != '\n' {
        lemma_first_newline(s.drop_first());
        assert forall|j: int| 0 <= j < spec_first_newline(s) implies s[j] != '\n' by {
            if j > 0 {
                assert(s.drop_first()[j - 1] == s[j]);
                assert(j - 1 < spec_first_newline(s.drop_first()));
            }
        }
    }
}

/// A line with one trailing carriage return taken off.
pub open spec fn spec_strip_cr(l: Seq<char>) -> Seq<char> {
    if l.len() > 0 && l.last() == '\r' {
        l.drop_last()
    } else {
        l
    }
}

/// The lines of a text: split at each newline, a trailing carriage return
/// taken off each line, and no empty final line for a trailing newline.
pub open spec fn spec_lines(s: Seq<char>) -> Seq<Seq<char>>
    decreases s.len(),
    via spec_lines_decreases
{
    if s.len() == 0 {
        Seq::empty()
    } else {
        let i = spec_first_newline(s);
        if i == s.len() {
            seq![spec_strip_cr(s)]
        } else {
            seq![spec_strip_cr(s.take(i))] + spec_lines(s.skip(i + 1))
        }
    }
}

#[via_fn]
proof fn spec_lines_decreases(s: Seq<char>) {
    lemma_first_newline(s);
}

/// Take one trailing carriage return off an already newline-free line.
fn strip_cr(l: &str) -> (r: String)
    ensures
        r@ == spec_strip_cr(l@),
{
    let n = l.unicode_len();
    if n > 0 && l.get_char(n - 1) == '\r' {
        let head = l.substring_char(0, n - 1);
        proof {
            assert(head@ =~= l@.drop_last());
        }
        String::from_str(head)
    } else {
        String::from_str(l)
    }
}

/// Split a text into its lines.
pub fn split_lines(s: &str) -> (r: Vec<String>)
    ensures
        r@.map_values(|l: String| l@) == spec_lines(s@),
{
    let n = s.unicode_len();
    let mut r: Vec<String> = Vec::new();
    let mut start: usize = 0;
    let mut i: usize = 0;
    proof {
        assert(s@.skip(0) =~= s@);
        assert(r@.map_values(|l: String| l@) =~= Seq::<Seq<char>>::empty());
        assert(r@.map_values(|l: String| l@) + spec_lines(s@) =~= spec_lines(s@));
    }
    while i < n
        invariant
            n == s@.len(),
            start <= i <= n,
            forall|j: int| start <= j < i ==> s@[j] != '\n',
            spec_lines(s@) == r@.map_values(|l: String| l@) + spec_lines(s@.skip(start as int)),
        decreases n - i,
    {
        if s.get_char(i) == '\n' {
            let ghost rest = s@.skip(start as int);
            proof {
                lemma_first_newline(rest);
                assert(forall|j: int|
                    0 <= j < rest.len() ==> (#[trigger] rest[j]) == s@[start + j]);
                assert(rest[i - start as int] == '\n');
                assert(spec_first_newline(rest) == i - start as int);
                assert(rest.take(i - start as int) =~= s@.subrange(start as int, i as int));
                assert(rest.skip(i - start as int + 1) =~= s@.skip(i as int + 1));
            }
            let seg = s.substring_char(start, i);
            proof {
                assert(seg@ =~= s@.subrange(start as int, i as int));
            }
            let line = strip_cr(seg);
            let ghost old_r = r@;
            r.push(line);
            proof {
                assert(r@.map_values(|l: String| l@) =~= old_r.map_values(|l: String| l@)
                    + seq![spec_strip_cr(rest.take(i - start as int))]);
                assert(spec_lines(rest) == seq![spec_strip_cr(rest.take(i - start as int))]
                    + spec_lines(s@.skip(i as int + 1)));
            }
            start = i + 1;
        }
        i += 1;
    }
    if start < n {
        let ghost rest = s@.skip(start as int);
        proof {
            lemma_first_newline(rest);
            assert(forall|j: int| 0 <= j < rest.len() ==> (#[trigger] rest[j]) == s@[start + j]);
            assert(spec_first_newline(rest) == rest.len());
        }
        let seg = s.substring_char(start, n);
        proof {
            assert(seg@ =~= rest);
            assert(spec_lines(rest) == seq![spec_strip_cr(rest)]);
        }
        let line = strip_cr(seg);
        let ghost old_r = r@;
        r.push(line);
        proof {
            assert(r@.map_values(|l: String| l@) =~= old_r.map_values(|l: String| l@) + seq![
                spec_strip_cr(rest),
            ]);
        }
    } else {
        proof {
            assert(s@.skip(start as int) =~= Seq::<char>::empty());
            assert(r@.map_values(|l: String| l@) =~= r@.map_values(|l: String| l@)
                + spec_lines(Seq::<char>::empty()));
        }
    }
    r
}

/// A detected C-family dialect; the MSVC front end may really be clang.
#[derive(Debug, PartialEq, Eq, Structural, Clone, Copy)]
pub enum CDialect {
    Gcc,
    Clang,
    Diab,
    Msvc { is_clang: bool },
}

impl CDialect {
    /// The compiler kind this dialect stands for.
    pub open spec fn spec_kind(&self) -> CompilerKind {
        match self {
            CDialect::Gcc => CompilerKind::C(CCompilerKind::Gcc),
            CDialect::Clang => CompilerKind::C(CCompilerKind::Clang),
            CDialect::Diab => CompilerKind::C(CCompilerKind::Diab),
            CDialect::Msvc { .. } => CompilerKind::C(CCompilerKind::Msvc),
        }
    }

    pub fn kind(&self) -> (r: CompilerKind)
        ensures
            r == self.spec_kind(),
    {
        match self {
            CDialect::Gcc => CompilerKind::C(CCompilerKind::Gcc),
            CDialect::Clang => CompilerKind::C(CCompilerKind::Clang),
            CDialect::Diab => CompilerKind::C(CCompilerKind::Diab),
            CDialect::Msvc { .. } => CompilerKind::C(CCompilerKind::Msvc),
        }
    }
}

/// The dialect a probe-output line identifies, if any.
pub open spec fn spec_dialect_token(l: Seq<char>) -> Option<CDialect> {
    if l == "clang"@ {
        Option::Some(CDialect::Clang)
    } else if l == "diab"@ {
        Option::Some(CDialect::Diab)
    } else if l == "gcc"@ {
        Option::Some(CDialect::Gcc)
    } else if l == "msvc"@ {
        Option::Some(CDialect::Msvc { is_clang: false })
    } else if l == "msvc-clang"@ {
        Option::Some(CDialect::Msvc { is_clang: true })
    } else {
        Option::None
    }
}

fn dialect_token(l: &String) -> (r: Option<CDialect>)
    ensures
        r == spec_dialect_token(l@),
{
    if crate::entry::str_eq(l.as_str(), "clang") {
        Option::Some(CDialect::Clang)
    } else if crate::entry::str_eq(l.as_str(), "diab") {
        Option::Some(CDialect::Diab)
    } else if crate::entry::str_eq(l.as_str(), "gcc") {
        Option::Some(CDialect::Gcc)
    } else if crate::entry::str_eq(l.as_str(), "msvc") {
        Option::Some(CDialect::Msvc { is_clang: false })
    } else if crate::entry::str_eq(l.as_str(), "msvc-clang") {
        Option::Some(CDialect::Msvc { is_clang: true })
    } else {
        Option::None
    }
}

/// The first line that names a dialect decides; no identifying line means the
/// compiler stays unknown.
pub open spec fn spec_detect_from_lines(lines: Seq<Seq<char>>) -> Option<CDialect>
    decreases lines.len(),
{
    if lines.len() == 0 {
        Option::None
    } else if spec_dialect_token(lines[0]) is Some {
        spec_dialect_token(lines[0])
    } else {
        spec_detect_from_lines(lines.drop_first())
    }
}

/// Classify a C-family compiler from the standard output of its preprocessor
/// probe: the first line naming a dialect decides.
pub fn detect_c_dialect(stdout: &str) -> (r: Option<CDialect>)
    ensures
        r == spec_detect_from_lines(spec_lines(stdout@)),
{
    let lines = split_lines(stdout);
    let n = lines.len();
    let mut i: usize = 0;
    let ghost all = lines@.map_values(|l: String| l@);
    proof {
        assert(all.skip(0) =~= all);
    }
    while i < n
        invariant
            n == lines@.len(),
            i <= n,
            all == lines@.map_values(|l: String| l@),
            all == spec_lines(stdout@),
            spec_detect_from_lines(all) == spec_detect_from_lines(all.skip(i as int)),
            forall|j: int| 0 <= j < i ==> spec_dialect_token(all[j]) is None,
        decreases n - i,
    {
        let tok = dialect_token(&lines[i]);
        proof {
            assert(all.skip(i as int)[0] == all[i as int]);
            assert(all.skip(i as int).drop_first() =~= all.skip(i as int + 1));
        }
        if let Option::Some(d) = tok {
            return Option::Some(d);
        }
        i += 1;
    }
    proof {
        assert(all.skip(n as int) =~= Seq::<Seq<char>>::empty());
    }
    Option::None
}

/// Does this version banner identify a Rust compiler? It must begin with the
/// word `rustc` and a space.
pub open spec fn spec_is_rustc_banner(s: Seq<char>) -> bool {
    s.len() >= 6 && s.take(6) == "rustc "@
}

/// The decision after the Rust probe ran the executable with `-vV`: the
/// verbose version banner is kept exactly when the probe exited zero and its
/// output begins with `rustc `; otherwise detection falls through to the
/// C-family probe.
pub fn rustc_verbose_version(status: &ExitStatus, stdout: Option<String>) -> (r: Option<String>)
    ensures
        match stdout {
            Option::Some(s) => if status.spec_success() && spec_is_rustc_banner(s@) {
                r == Option::Some(s)
            } else {
                r is None
            },
            Option::None => r is None,
        },
{
    if !status.success() {
        return Option::None;
    }
    match stdout {
        Option::None => Option::None,
        Option::Some(s) => {
            if s.as_str().unicode_len() >= 6 {
                let head = s.as_str().substring_char(0, 6);
                proof {
                    assert(head@ =~= s@.take(6));
                }
                if crate::entry::str_eq(head, "rustc ") {
                    return Option::Some(s);
                }
                Option::None
            } else {
                Option::None
            }
        },
    }
}

/// Is this file stem the word `rustc`, compared without regard to ASCII case?
pub open spec fn spec_is_rustc_stem(s: Seq<char>) -> bool {
    &&& s.len() == 5
    &&& (s[0] == 'r' || s[0] == 'R')
    &&& (s[1] == 'u' || s[1] == 'U')
    &&& (s[2] == 's' || s[2] == 'S')
    &&& (s[3] == 't' || s[3] == 'T')
    &&& (s[4] == 'c' || s[4] == 'C')
}

/// Does the executable's file stem spell `rustc` (any ASCII case), so that the
/// Rust probe should run first?
pub fn is_rustc_stem(stem: &str) -> (r: bool)
    ensures
        r == spec_is_rustc_stem(stem@),
{
    if stem.unicode_len() != 5 {
        return false;
    }
    let c0 = stem.get_char(0);
    let c1 = stem.get_char(1);
    let c2 = stem.get_char(2);
    let c3 = stem.get_char(3);
    let c4 = stem.get_char(4);
    (c0 == 'r' || c0 == 'R') && (c1 == 'u' || c1 == 'U') && (c2 == 's' || c2 == 'S') && (c3 == 't'
        || c3 == 'T') && (c4 == 'c' || c4 == 'C')
}

/// An executable's last-modified time, as the clock's seconds and nanoseconds.
#[derive(Debug, PartialEq, Eq, Structural, Clone, Copy)]
pub struct FileTime {
    pub unix_seconds: i64,
    pub nanos: u32,
}

/// What the detection cache knows of one executable path.
pub type DetectEntry = Option<(CompilerKind, FileTime)>;

/// The per-server compiler-detection cache, keyed by executable path. A
/// positive entry is valid only while the executable's last-modified time is
/// unchanged; a negative entry (a path known not to be a compiler) is kept to
/// avoid re-probing.
#[derive(Debug)]
pub struct CompilerCache {
    table: KvMap<DetectEntry>,
}

/// What a cache consultation decides.
#[derive(Debug, PartialEq, Eq, Structural, Clone, Copy)]
pub enum CacheLookup {
    /// Serve this cached answer; `None` is the cached knowledge that the path
    /// is no compiler.
    Cached(Option<CompilerKind>),
    /// Nothing current is known: probe the executable, then record the answer.
    NeedsDetect,
}

impl CompilerCache {
    pub closed spec fn wf(&self) -> bool {
        self.table.wf()
    }

    /// Path to cached detection result.
    pub closed spec fn view(&self) -> Map<Seq<char>, DetectEntry> {
        self.table@
    }

    pub fn new() -> (r: Self)
        ensures
            r.wf(),
            r@ == Map::<Seq<char>, DetectEntry>::empty(),
    {
        CompilerCache { table: KvMap::new() }
    }

    /// Consult the cache: a positive entry answers only if its recorded
    /// modification time equals the executable's current one, so a modified
    /// executable is always re-detected; a negative entry always answers.
    pub fn lookup(&self, path: &str, mtime: FileTime) -> (r: CacheLookup)
        requires
            self.wf(),
        ensures
            r == if self@.contains_key(path@) {
                match self@[path@] {
                    Option::Some((kind, cached_mtime)) => if cached_mtime == mtime {
                        CacheLookup::Cached(Option::Some(kind))
                    } else {
                        CacheLookup::NeedsDetect
                    },
                    Option::None => CacheLookup::Cached(Option::<CompilerKind>::None),
                }
            } else {
                CacheLookup::NeedsDetect
            },
    {
        match self.table.get(path) {
            Option::None => CacheLookup::NeedsDetect,
            Option::Some(Option::None) => CacheLookup::Cached(Option::None),
            Option::Some(Option::Some((kind, cached_mtime))) => {
                if cached_mtime == mtime {
                    CacheLookup::Cached(Option::Some(kind))
                } else {
                    CacheLookup::NeedsDetect
                }
            },
        }
    }

    /// Record a detection result, positive or negative, stamped with the
    /// executable's modification time.
    pub fn record(&mut self, path: String, info: Option<CompilerKind>, mtime: FileTime)
        requires
            old(self).wf(),
        ensures
            final(self).wf(),
            final(self)@ == old(self)@.insert(
                path@,
                match info {
                    Option::Some(kind) => Option::Some((kind, mtime)),
                    Option::None => Option::None,
                },
            ),
    {
        let entry: DetectEntry = match info {
            Option::Some(kind) => Option::Some((kind, mtime)),
            Option::None => Option::None,
        };
        self.table.insert(path, entry);
    }
}

} // verus!
