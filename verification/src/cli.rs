//! The run configuration: output format, log level, completion shell,
//! target-file suffix, and the option set with its mutual-exclusion rules.

use vstd::prelude::*;
use vstd::string::StringExecFns;

verus! {

/// The output stream container format.
#[derive(Clone, Copy, Debug, PartialEq, Eq, Structural)]
pub enum Format {
    /// The gzip file format, as defined in RFC 1952.
    Gzip,
    /// The zlib file format, as defined in RFC 1950.
    Zlib,
    /// The raw DEFLATE stream format, as defined in RFC 1951.
    Deflate,
}

impl Format {
    /// The suffix appended to a source path when no explicit suffix is
    /// configured.
    pub open spec fn spec_default_suffix(self) -> Seq<char> {
        match self {
            Format::Gzip => ".gz"@,
            Format::Zlib => ".zlib"@,
            Format::Deflate => ".deflate"@,
        }
    }

    /// A distinct code per format, used to index the engine's output in
    /// specifications.
    pub open spec fn spec_code(self) -> int {
        match self {
            Format::Gzip => 0,
            Format::Zlib => 1,
            Format::Deflate => 2,
        }
    }

    /// Returns the format-derived default suffix for the target file.
    pub fn default_suffix(&self) -> (r: &'static str)
        ensures
            r@ == self.spec_default_suffix(),
    {
        match self {
            Format::Gzip => ".gz",
            Format::Zlib => ".zlib",
            Format::Deflate => ".deflate",
        }
    }
}

impl Default for Format {
    /// The default output format is gzip.
    fn default() -> (r: Self)
        ensures
            r == Format::Gzip,
    {
        Format::Gzip
    }
}

/// The minimum log level to print.
#[derive(Clone, Copy, Debug, PartialEq, Eq, Structural)]
pub enum LogLevel {
    /// Lowest log level.
    Off,
    /// Error log level.
    Error,
    /// Warn log level.
    Warn,
    /// Info log level.
    Info,
    /// Debug log level.
    Debug,
    /// Trace log level.
    Trace,
}

impl Default for LogLevel {
    /// The default minimum log level is `Info`.
    fn default() -> (r: Self)
        ensures
            r == LogLevel::Info,
    {
        LogLevel::Info
    }
}

/// A shell for which a completion script can be generated.
#[derive(Clone, Copy, Debug, PartialEq, Eq, Structural)]
pub enum Shell {
    /// Bash.
    Bash,
    /// Elvish.
    Elvish,
    /// fish.
    Fish,
    /// Nushell.
    Nushell,
    /// PowerShell.
    PowerShell,
    /// Zsh.
    Zsh,
}

impl Shell {
    /// The file name under which a completion script for the command `name`
    /// is conventionally installed.
    pub open spec fn spec_file_name(self, name: Seq<char>) -> Seq<char> {
        match self {
            Shell::Bash => name + ".bash"@,
            Shell::Elvish => name + ".elv"@,
            Shell::Fish => name + ".fish"@,
            Shell::Nushell => name + ".nu"@,
            Shell::PowerShell => "_"@ + name + ".ps1"@,
            Shell::Zsh => "_"@ + name,
        }
    }

    /// Returns the completion script file name for the command `name`.
    pub fn file_name(&self, name: &str) -> (r: String)
        ensures
            r@ == self.spec_file_name(name@),
    {
        match self {
            Shell::Bash => String::from_str(name).concat(".bash"),
            Shell::Elvish => String::from_str(name).concat(".elv"),
            Shell::Fish => String::from_str(name).concat(".fish"),
            Shell::Nushell => String::from_str(name).concat(".nu"),
            Shell::PowerShell => String::from_str("_").concat(name).concat(".ps1"),
            Shell::Zsh => String::from_str("_").concat(name),
        }
    }
}

/// The reason a candidate suffix was rejected.
#[derive(Clone, Copy, Debug, PartialEq, Eq, Structural)]
pub enum SuffixError {
    /// The candidate was empty.
    Empty,
    /// The candidate contained the platform path separator.
    PathSeparator,
    /// The candidate did not start with `.`.
    MissingLeadingDot,
}

impl SuffixError {
    /// The diagnostic text for this rejection.
    pub open spec fn spec_message(self) -> Seq<char> {
        match self {
            SuffixError::Empty => "the suffix is an empty string"@,
            SuffixError::PathSeparator => "the suffix contains a path separator"@,
            SuffixError::MissingLeadingDot => "the suffix does not starts with `.`"@,
        }
    }

    /// Returns the diagnostic text for this rejection.
    pub fn message(&self) -> (r: &'static str)
        ensures
            r@ == self.spec_message(),
    {
        match self {
            SuffixError::Empty => "the suffix is an empty string",
            SuffixError::PathSeparator => "the suffix contains a path separator",
            SuffixError::MissingLeadingDot => "the suffix does not starts with `.`",
        }
    }
}

/// The suffix for the target file.
///
/// A parsed suffix is non-empty, starts with `.`, and contains no path
/// separator; an arbitrary string can still be held directly, which the
/// orchestration accepts and only warns about when it is empty.
#[derive(Clone, Debug, Eq, PartialEq)]
pub struct Suffix(pub String);

impl Suffix {
    /// A suffix that `parse` accepts: non-empty, no path separator (`/` on
    /// Unix), and a leading `.`.
    pub open spec fn spec_is_valid(s: Seq<char>) -> bool {
        &&& s.len() > 0
        &&& !s.contains('/')
        &&& s[0] == '.'
    }

    /// Validates a candidate suffix, in the order: emptiness, path
    /// separator, leading dot; the first failed check names the error.
    pub fn parse(suffix: &str) -> (r: Result<Self, SuffixError>)
        ensures
            match r {
                Ok(s) => s.0@ == suffix@ && Self::spec_is_valid(suffix@),
                Err(SuffixError::Empty) => suffix@.len() == 0,
                Err(SuffixError::PathSeparator) => suffix@.len() > 0 && suffix@.contains('/'),
                Err(SuffixError::MissingLeadingDot) => suffix@.len() > 0
                    && !suffix@.contains('/') && suffix@[0] != '.',
            },
    {
        let n = suffix.unicode_len();
        if n == 0 {
            return Err(SuffixError::Empty);
        }
        let mut i: usize = 0;
        while i < n
            invariant
                0 <= i <= n,
                n == suffix@.len(),
                forall|j: int| 0 <= j < i ==> suffix@[j] != '/',
            decreases n - i,
        {
            if suffix.get_char(i) == '/' {
                assert(suffix@.contains('/'));
                return Err(SuffixError::PathSeparator);
            }
            i += 1;
        }
        assert(!suffix@.contains('/')) by {
            assert(forall|j: int| 0 <= j < suffix@.len() ==> suffix@[j] != '/');
        }
        if suffix.get_char(0) != '.' {
            return Err(SuffixError::MissingLeadingDot);
        }
        Ok(Suffix(String::from_str(suffix)))
    }

    /// Returns the suffix as a string slice.
    pub fn as_str(&self) -> (r: &str)
        ensures
            r@ == self.0@,
    {
        self.0.as_str()
    }
}

impl core::ops::Deref for Suffix {
    type Target = str;

    /// A suffix dereferences to its text.
    fn deref(&self) -> (r: &str)
        ensures
            r@ == self.0@,
    {
        self.0.as_str()
    }
}

impl core::str::FromStr for Suffix {
    type Err = SuffixError;

    fn from_str(suffix: &str) -> (r: Result<Self, SuffixError>) {
        Self::parse(suffix)
    }
}

/// A violation of the option set's mutual-exclusion rules, caught before any
/// job starts.
#[derive(Clone, Copy, Debug, PartialEq, Eq, Structural)]
pub enum ConfigError {
    /// Writing to standard output keeps original files, so it excludes
    /// removing them.
    StdoutConflictsWithRemove,
    /// Writing to standard output resolves no output path, so an explicit
    /// suffix has no effect.
    StdoutConflictsWithSuffix,
    /// Keeping and removing input files exclude each other.
    KeepConflictsWithRemove,
    /// The iteration count must be at least one.
    ZeroIteration,
}

impl ConfigError {
    /// The diagnostic text for this violation.
    pub open spec fn spec_message(self) -> Seq<char> {
        match self {
            ConfigError::StdoutConflictsWithRemove => "the argument '--stdout' cannot be used with '--rm'"@,
            ConfigError::StdoutConflictsWithSuffix => "the argument '--stdout' cannot be used with '--suffix <SUFFIX>'"@,
            ConfigError::KeepConflictsWithRemove => "the argument '--keep' cannot be used with '--rm'"@,
            ConfigError::ZeroIteration => "number would be zero for non-zero type"@,
        }
    }

    /// Returns the diagnostic text for this violation.
    pub fn message(&self) -> (r: &'static str)
        ensures
            r@ == self.spec_message(),
    {
        match self {
            ConfigError::StdoutConflictsWithRemove => "the argument '--stdout' cannot be used with '--rm'",
            ConfigError::StdoutConflictsWithSuffix => "the argument '--stdout' cannot be used with '--suffix <SUFFIX>'",
            ConfigError::KeepConflictsWithRemove => "the argument '--keep' cannot be used with '--rm'",
            ConfigError::ZeroIteration => "number would be zero for non-zero type",
        }
    }
}

/// The validated run configuration, produced once per invocation.
#[derive(Clone, Debug)]
pub struct Opt {
    /// Write to standard output, keep original files.
    pub stdout: bool,
    /// Force compression even if the output file already exists, and accept
    /// terminal standard input.
    pub force: bool,
    /// Keep input files; the default behavior.
    pub _keep: bool,
    /// Remove input files after successful compression.
    pub remove: bool,
    /// The suffix for the target file instead of the format-derived default.
    pub suffix: Option<Suffix>,
    /// Perform compression for this number of iterations; at least one.
    pub iteration: u64,
    /// The output stream format.
    pub format: Format,
    /// The minimum log level to print.
    pub log_level: LogLevel,
    /// Generate a completion script for this shell instead of compressing.
    pub generate_completion: Option<Shell>,
    /// Files to compress; `None` or a `-` entry means standard input.
    pub input: Option<Vec<String>>,
}

impl Opt {
    /// The mutual-exclusion rules of the option set, enforced before any
    /// file I/O occurs.
    pub open spec fn spec_is_valid(self) -> bool {
        &&& !(self.stdout && self.remove)
        &&& !(self.stdout && self.suffix is Some)
        &&& !(self._keep && self.remove)
        &&& self.iteration >= 1
    }

    /// Checks the mutual-exclusion rules, in the order: stdout against
    /// remove, stdout against suffix, keep against remove, then the
    /// iteration count; the first violated rule names the error.
    pub fn validate(&self) -> (r: Result<(), ConfigError>)
        ensures
            r is Ok <==> self.spec_is_valid(),
            match r {
                Ok(()) => self.spec_is_valid(),
                Err(ConfigError::StdoutConflictsWithRemove) => self.stdout && self.remove,
                Err(ConfigError::StdoutConflictsWithSuffix) => !(self.stdout && self.remove)
                    && self.stdout && self.suffix is Some,
                Err(ConfigError::KeepConflictsWithRemove) => !(self.stdout && self.remove)
                    && !(self.stdout && self.suffix is Some) && self._keep && self.remove,
                Err(ConfigError::ZeroIteration) => !(self.stdout && self.remove)
                    && !(self.stdout && self.suffix is Some) && !(self._keep && self.remove)
                    && self.iteration == 0,
            },
    {
        if self.stdout && self.remove {
            Err(ConfigError::StdoutConflictsWithRemove)
        } else if self.stdout && self.suffix.is_some() {
            Err(ConfigError::StdoutConflictsWithSuffix)
        } else if self._keep && self.remove {
            Err(ConfigError::KeepConflictsWithRemove)
        } else if self.iteration == 0 {
            Err(ConfigError::ZeroIteration)
        } else {
            Ok(())
        }
    }
}

} // verus!
