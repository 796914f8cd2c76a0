// Compiler detection, driven by the probe outputs the original test doubles
// produced.

use sccache::detect::detect_c_dialect;
use sccache::detect::is_rustc_stem;
use sccache::detect::rustc_verbose_version;
use sccache::detect::split_lines;
use sccache::detect::CDialect;
use sccache::detect::CacheLookup;
use sccache::detect::CompilerCache;
use sccache::detect::FileTime;
use sccache::kinds::CCompilerKind;
use sccache::kinds::CompilerKind;
use sccache::kinds::ExitStatus;

fn detect(stem: &str, status: ExitStatus, stdout: &str) -> Option<CompilerKind> {
    // The host's detection flow: a rustc-named executable is probed with -vV
    // first; everything else (or a failed banner) goes through the -E probe.
    if is_rustc_stem(stem) {
        if rustc_verbose_version(&status, Some(stdout.to_string())).is_some() {
            return Some(CompilerKind::Rust);
        }
    }
    detect_c_dialect(stdout).map(|d| d.kind())
}

#[test]
fn test_detect_compiler_kind_gcc() {
    let c = detect("bin", ExitStatus::Code(0), "foo\nbar\ngcc").unwrap();
    assert_eq!(CompilerKind::C(CCompilerKind::Gcc), c);
}

#[test]
fn test_detect_compiler_kind_clang() {
    let c = detect("bin", ExitStatus::Code(0), "clang\nfoo").unwrap();
    assert_eq!(CompilerKind::C(CCompilerKind::Clang), c);
}

#[test]
fn test_detect_compiler_kind_msvc() {
    let c = detect("bin", ExitStatus::Code(0), "foo\nmsvc\nbar").unwrap();
    assert_eq!(CompilerKind::C(CCompilerKind::Msvc), c);
    // The clang-fronted MSVC is told apart by its own token.
    assert_eq!(
        detect_c_dialect("foo\nmsvc-clang\nbar"),
        Some(CDialect::Msvc { is_clang: true })
    );
}

#[test]
fn test_detect_compiler_kind_rustc() {
    let banner = "rustc 1.27.0 (3eda71b00 2018-06-19)\n\
binary: rustc\n\
commit-hash: 3eda71b00ad48d7bf4eef4c443e7f611fd061418\n\
commit-date: 2018-06-19\n\
host: x86_64-unknown-linux-gnu\n\
release: 1.27.0\n\
LLVM version: 6.0";
    let c = detect("rustc", ExitStatus::Code(0), banner).unwrap();
    assert_eq!(CompilerKind::Rust, c);
}

#[test]
fn test_detect_compiler_kind_diab() {
    let c = detect("bin", ExitStatus::Code(0), "foo\ndiab\nbar").unwrap();
    assert_eq!(CompilerKind::C(CCompilerKind::Diab), c);
}

#[test]
fn test_detect_compiler_kind_unknown() {
    assert!(detect("bar", ExitStatus::Code(0), "something").is_none());
}

#[test]
fn test_detect_compiler_kind_process_fail() {
    assert!(detect("bar", ExitStatus::Code(1), "").is_none());
}

#[test]
fn test_get_compiler_info() {
    // Pretend to be GCC.
    let c = detect("bin", ExitStatus::Code(0), "gcc").unwrap();
    assert_eq!(CompilerKind::C(CCompilerKind::Gcc), c);
}

#[test]
fn rustc_banner_requires_success_and_prefix() {
    let ok = ExitStatus::Code(0);
    assert_eq!(
        rustc_verbose_version(&ok, Some("rustc 1.27.0".to_string())),
        Some("rustc 1.27.0".to_string())
    );
    assert!(rustc_verbose_version(&ExitStatus::Code(1), Some("rustc 1.27.0".to_string())).is_none());
    assert!(rustc_verbose_version(&ok, Some("gcc 8".to_string())).is_none());
    assert!(rustc_verbose_version(&ok, None).is_none());
    assert!(rustc_verbose_version(&ExitStatus::Signal(9), Some("rustc 1.27.0".to_string())).is_none());
}

#[test]
fn rustc_stem_ignores_ascii_case() {
    assert!(is_rustc_stem("rustc"));
    assert!(is_rustc_stem("RustC"));
    assert!(!is_rustc_stem("rust"));
    assert!(!is_rustc_stem("rustc2"));
    assert!(!is_rustc_stem("gcc"));
}

#[test]
fn split_lines_matches_line_structure() {
    let lines = split_lines("foo\nbar\ngcc");
    assert_eq!(lines, vec!["foo".to_string(), "bar".to_string(), "gcc".to_string()]);
    assert_eq!(split_lines(""), Vec::<String>::new());
    assert_eq!(split_lines("a\r\nb"), vec!["a".to_string(), "b".to_string()]);
    assert_eq!(split_lines("gcc\n"), vec!["gcc".to_string()]);
    assert_eq!(split_lines("a\n\nb"), vec!["a".to_string(), "".to_string(), "b".to_string()]);
}

#[test]
fn first_identifying_line_decides() {
    assert_eq!(detect_c_dialect("clang\ngcc"), Some(CDialect::Clang));
    assert_eq!(detect_c_dialect("gcc\nclang"), Some(CDialect::Gcc));
    assert_eq!(detect_c_dialect("gcc extra tokens"), None);
}

#[test]
fn detection_cache_invalidated_by_mtime() {
    let mut cache = CompilerCache::new();
    let t1 = FileTime { unix_seconds: 100, nanos: 0 };
    let t2 = FileTime { unix_seconds: 200, nanos: 0 };
    assert_eq!(cache.lookup("/usr/bin/gcc", t1), CacheLookup::NeedsDetect);
    cache.record(
        "/usr/bin/gcc".to_string(),
        Some(CompilerKind::C(CCompilerKind::Gcc)),
        t1,
    );
    assert_eq!(
        cache.lookup("/usr/bin/gcc", t1),
        CacheLookup::Cached(Some(CompilerKind::C(CCompilerKind::Gcc)))
    );
    // The executable was modified: the entry must not be served.
    assert_eq!(cache.lookup("/usr/bin/gcc", t2), CacheLookup::NeedsDetect);
    // A negative result is cached too.
    cache.record("/usr/bin/ld".to_string(), None, t1);
    assert_eq!(cache.lookup("/usr/bin/ld", t2), CacheLookup::Cached(None));
}
