//! Small platform, logging, string and path helpers around the core.

use vstd::prelude::*;
use vstd::string::StringExecFns;

verus! {

/// The operating-system family the tool was compiled for, as the surrounding
/// program detects it.
#[derive(Clone, Copy, Debug, PartialEq, Eq, Structural)]
pub enum OsFamily {
    Windows,
    Macos,
    Linux,
    Other,
}

/// The processor architecture the tool was compiled for.
#[derive(Clone, Copy, Debug, PartialEq, Eq, Structural)]
pub enum ArchFamily {
    X86_64,
    Aarch64,
    Other,
}

/// The error for a platform outside the supported set.
#[derive(Clone, Copy, Debug, PartialEq, Eq, Structural)]
pub enum EnvError {
    UnsupportedOs,
    UnsupportedArch,
}

/// The canonical name of each supported operating-system family.
pub open spec fn os_name(os: OsFamily) -> Seq<char> {
    match os {
        OsFamily::Windows => "windows"@,
        OsFamily::Macos => "macos"@,
        OsFamily::Linux => "linux"@,
        OsFamily::Other => Seq::empty(),
    }
}

/// The canonical name of each supported architecture.
pub open spec fn arch_name(arch: ArchFamily) -> Seq<char> {
    match arch {
        ArchFamily::X86_64 => "x86_64"@,
        ArchFamily::Aarch64 => "aarch64"@,
        ArchFamily::Other => Seq::empty(),
    }
}

/// Names the target platform: the canonical OS and architecture names for a
/// supported platform, and otherwise the error for whichever of the two --
/// the OS checked first -- is unsupported.
pub fn os_arch(os: OsFamily, arch: ArchFamily) -> (r: Result<
    (&'static str, &'static str),
    EnvError,
>)
    ensures
        r is Ok <==> (os != OsFamily::Other && arch != ArchFamily::Other),
        r matches Ok(p) ==> p.0@ == os_name(os) && p.1@ == arch_name(arch),
        os == OsFamily::Other ==> (r matches Err(e) && e == EnvError::UnsupportedOs),
        (os != OsFamily::Other && arch == ArchFamily::Other) ==> (r matches Err(e) && e
            == EnvError::UnsupportedArch),
{
    let target_os: &'static str = match os {
        OsFamily::Windows => "windows",
        OsFamily::Macos => "macos",
        OsFamily::Linux => "linux",
        OsFamily::Other => {
            return Err(EnvError::UnsupportedOs);
        },
    };
    let target_arch: &'static str = match arch {
        ArchFamily::X86_64 => "x86_64",
        ArchFamily::Aarch64 => "aarch64",
        ArchFamily::Other => {
            return Err(EnvError::UnsupportedArch);
        },
    };
    Ok((target_os, target_arch))
}

/// How much the tool logs, from quietest to most detailed.
#[derive(Clone, Copy, Debug, PartialEq, Eq, Structural)]
pub enum LogLevel {
    Warn,
    Info,
    Debug,
    Trace,
}

/// The log level each verbosity count selects: warnings by default, then
/// one more level per count, saturating at trace.
pub open spec fn log_level_spec(verbose: u8) -> LogLevel {
    if verbose == 0 {
        LogLevel::Warn
    } else if verbose == 1 {
        LogLevel::Info
    } else if verbose == 2 {
        LogLevel::Debug
    } else {
        LogLevel::Trace
    }
}

/// Selects the log level for a verbosity count, as [`log_level_spec`] says.
pub fn log_level_for(verbose: u8) -> (l: LogLevel)
    ensures
        l == log_level_spec(verbose),
{
    match verbose {
        0 => LogLevel::Warn,
        1 => LogLevel::Info,
        2 => LogLevel::Debug,
        _ => LogLevel::Trace,
    }
}

/// Convenience additions shared by `str` and `String`.
pub trait StrAdditions where Self: View<V = Seq<char>> {
    /// A fresh string holding `self` followed by `append`.
    fn with(&self, append: &str) -> (r: String)
        ensures
            r@ == self@ + append@,
    ;
}

impl StrAdditions for str {
    fn with(&self, append: &str) -> (r: String) {
        let mut s = self.to_owned();
        s.append(append);
        s
    }
}

impl StrAdditions for String {
    fn with(&self, append: &str) -> (r: String) {
        let mut s = self.clone();
        s.append(append);
        s
    }
}

/// A filesystem path held as its components, so that dropping and appending
/// components is plain sequence arithmetic.
#[derive(Debug, PartialEq, Eq)]
pub struct RelPath {
    pub segments: Vec<String>,
}

impl View for RelPath {
    type V = Seq<Seq<char>>;

    open spec fn view(&self) -> Seq<Seq<char>> {
        self.segments.deep_view()
    }
}

impl RelPath {
    /// The empty path.
    pub fn new() -> (p: Self)
        ensures
            p@ == Seq::<Seq<char>>::empty(),
    {
        let p = RelPath { segments: Vec::new() };
        proof {
            assert(p@ =~= Seq::<Seq<char>>::empty());
        }
        p
    }

    /// A path made of the given components.
    pub fn from_segments(segments: Vec<String>) -> (p: Self)
        ensures
            p@ == segments.deep_view(),
    {
        RelPath { segments }
    }
}

/// Convenience additions for component-wise paths.
pub trait PathBufAdditions where Self: View<V = Seq<Seq<char>>> + Sized {
    /// Drops the last path component; the empty path stays empty.
    fn without_last(self) -> (r: Self)
        ensures
            r@ == if self@.len() == 0 {
                self@
            } else {
                self@.drop_last()
            },
    ;

    /// Appends one path component.
    fn with(self, append: &str) -> (r: Self)
        ensures
            r@ == self@.push(append@),
    ;
}

impl PathBufAdditions for RelPath {
    fn without_last(self) -> (r: Self) {
        let ghost orig = self@;
        let mut segments = self.segments;
        if segments.len() > 0 {
            let _last = segments.pop();
        }
        let r = RelPath { segments };
        proof {
            if orig.len() == 0 {
                assert(r@ =~= orig);
            } else {
                assert(r@ =~= orig.drop_last());
            }
        }
        r
    }

    fn with(self, append: &str) -> (r: Self) {
        let ghost orig = self@;
        let mut segments = self.segments;
        segments.push(append.to_owned());
        let r = RelPath { segments };
        proof {
            assert(r@ =~= orig.push(append@));
        }
        r
    }
}

} // verus!
