//! Logging pipeline construction: severity levels and filter expressions read
//! from configuration values, the sinks that logging layers write to, and the
//! assembly of the configured layers into one pipeline that is installed once.
use vstd::prelude::*;
use vstd::string::*;
use tracing_subscriber::EnvFilter;

use crate::text::same_text;

verus! {

#[verifier::external_type_specification]
#[verifier::external_body]
pub struct ExEnvFilter(EnvFilter);

/// Severity of a log event, ordered by increasing importance:
/// `Trace < Debug < Info < Warn < Error`.
#[derive(Clone, Copy, Debug, PartialEq, Eq, Structural)]
pub enum SeverityLevel {
    Trace,
    Debug,
    Info,
    Warn,
    Error,
}

impl SeverityLevel {
    /// Position of the level in the order `Trace < Debug < Info < Warn < Error`.
    pub open spec fn rank(self) -> nat {
        match self {
            SeverityLevel::Trace => 0,
            SeverityLevel::Debug => 1,
            SeverityLevel::Info => 2,
            SeverityLevel::Warn => 3,
            SeverityLevel::Error => 4,
        }
    }

    /// The canonical spelling of the level, which is also the filter
    /// directive that enables exactly this level and the more severe ones.
    pub open spec fn name(self) -> Seq<char> {
        match self {
            SeverityLevel::Trace => seq!['t', 'r', 'a', 'c', 'e'],
            SeverityLevel::Debug => seq!['d', 'e', 'b', 'u', 'g'],
            SeverityLevel::Info => seq!['i', 'n', 'f', 'o'],
            SeverityLevel::Warn => seq!['w', 'a', 'r', 'n'],
            SeverityLevel::Error => seq!['e', 'r', 'r', 'o', 'r'],
        }
    }

    pub fn as_str(&self) -> (r: &'static str)
        ensures
            r@ == self.name(),
    {
        proof {
            reveal_strlit("trace");
            reveal_strlit("debug");
            reveal_strlit("info");
            reveal_strlit("warn");
            reveal_strlit("error");
        }
        match self {
            SeverityLevel::Trace => "trace",
            SeverityLevel::Debug => "debug",
            SeverityLevel::Info => "info",
            SeverityLevel::Warn => "warn",
            SeverityLevel::Error => "error",
        }
    }

    pub fn rank_of(&self) -> (r: u8)
        ensures
            r as nat == self.rank(),
    {
        match self {
            SeverityLevel::Trace => 0,
            SeverityLevel::Debug => 1,
            SeverityLevel::Info => 2,
            SeverityLevel::Warn => 3,
            SeverityLevel::Error => 4,
        }
    }

    /// Whether this level comes strictly before `other` in the severity order.
    pub fn is_less_severe_than(&self, other: &SeverityLevel) -> (r: bool)
        ensures
            r == (self.rank() < other.rank()),
    {
        self.rank_of() < other.rank_of()
    }

    /// Whether an event of severity `event` passes a threshold set at this level.
    pub fn admits(&self, event: &SeverityLevel) -> (r: bool)
        ensures
            r == (self.rank() <= event.rank()),
    {
        self.rank_of() <= event.rank_of()
    }

    /// Every level, in increasing order of severity.
    pub fn all() -> (r: Vec<SeverityLevel>)
        ensures
            r@ == all_levels(),
    {
        let r = vec![
            SeverityLevel::Trace,
            SeverityLevel::Debug,
            SeverityLevel::Info,
            SeverityLevel::Warn,
            SeverityLevel::Error,
        ];
        assert(r@ =~= all_levels());
        r
    }
}

/// The five levels in increasing order of severity.
pub open spec fn all_levels() -> Seq<SeverityLevel> {
    seq![
        SeverityLevel::Trace,
        SeverityLevel::Debug,
        SeverityLevel::Info,
        SeverityLevel::Warn,
        SeverityLevel::Error,
    ]
}

/// The level whose canonical spelling is `s`, if there is one. Matching is
/// exact and case-sensitive: only the lowercase spellings are accepted.
pub open spec fn level_named(s: Seq<char>) -> Option<SeverityLevel> {
    if s == SeverityLevel::Trace.name() {
        Some(SeverityLevel::Trace)
    } else if s == SeverityLevel::Debug.name() {
        Some(SeverityLevel::Debug)
    } else if s == SeverityLevel::Info.name() {
        Some(SeverityLevel::Info)
    } else if s == SeverityLevel::Warn.name() {
        Some(SeverityLevel::Warn)
    } else if s == SeverityLevel::Error.name() {
        Some(SeverityLevel::Error)
    } else {
        None
    }
}

/// Why a logging pipeline could not be built or installed.
#[derive(Debug)]
pub enum TracingError {
    /// The logging section exists but does not have the expected shape.
    ConfigurationMalformed { reason: String },
    /// A level is not one of the canonical spellings listed in `accepted`.
    InvalidLevelValue { value: String, accepted: Vec<SeverityLevel> },
    /// A filter expression does not compile.
    InvalidFilterExpression { directives: String, diagnostic: String },
    /// A rotating-file path has no file-name component.
    InvalidSinkPath { path: String },
    /// A logging pipeline has already been installed in this process.
    AlreadyInitialized,
}

/// Parses a severity level from one of the canonical spellings
/// `trace`, `debug`, `info`, `warn` and `error` (case-sensitive).
pub fn parse_level(s: &str) -> (r: Result<SeverityLevel, TracingError>)
    ensures
        match r {
            Ok(l) => level_named(s@) == Some(l),
            Err(e) => {
                &&& level_named(s@) is None
                &&& e is InvalidLevelValue
                &&& e->value@ == s@
                &&& e->accepted@ == all_levels()
            },
        },
{
    let levels = SeverityLevel::all();
    let mut i: usize = 0;
    while i < levels.len()
        invariant
            levels@ == all_levels(),
            i <= levels.len(),
            forall|j: int| 0 <= j < i ==> s@ != (#[trigger] levels@[j]).name(),
        decreases levels.len() - i,
    {
        let level = levels[i];
        if same_text(s, level.as_str()) {
            return Ok(level);
        }
        i = i + 1;
    }
    assert(s@ != levels@[0].name());
    assert(s@ != levels@[1].name());
    assert(s@ != levels@[2].name());
    assert(s@ != levels@[3].name());
    assert(s@ != levels@[4].name());
    Err(TracingError::InvalidLevelValue { value: String::from_str(s), accepted: levels })
}

/// Whether the filter-directive syntax of `tracing_subscriber` accepts the
/// comma-separated directive list `s`.
pub uninterp spec fn directives_accepted(s: Seq<char>) -> bool;

/// Whether `c` is white space in Unicode's sense, the characters that
/// `char::is_whitespace` reports and `str::trim` removes.
pub open spec fn is_white_space(c: char) -> bool {
    let u = c as u32;
    ||| 0x09 <= u <= 0x0d
    ||| u == 0x20
    ||| u == 0x85
    ||| u == 0xa0
    ||| u == 0x1680
    ||| 0x2000 <= u <= 0x200a
    ||| u == 0x2028
    ||| u == 0x2029
    ||| u == 0x202f
    ||| u == 0x205f
    ||| u == 0x3000
}

fn white_space(c: char) -> (r: bool)
    ensures
        r == is_white_space(c),
{
    let u = c as u32;
    (0x09 <= u && u <= 0x0d) || u == 0x20 || u == 0x85 || u == 0xa0 || u == 0x1680 || (0x2000 <= u
        && u <= 0x200a) || u == 0x2028 || u == 0x2029 || u == 0x202f || u == 0x205f || u == 0x3000
}

/// Whether no comma-separated element of the directive list `s` begins with
/// white space.
pub open spec fn no_element_starts_blank(s: Seq<char>) -> bool {
    forall|i: int| 0 <= i < s.len() && (i == 0 || s[i - 1] == ',') ==> !is_white_space(#[trigger] s[i])
}

/// Tells whether no element of the directive list `s` begins with white space.
pub fn elements_start_plain(s: &str) -> (r: bool)
    ensures
        r == no_element_starts_blank(s@),
{
    let n = s.unicode_len();
    let mut i: usize = 0;
    let mut at_start = true;
    while i < n
        invariant
            n == s@.len(),
            i <= n,
            at_start == (i == 0 || s@[i - 1] == ','),
            forall|j: int| 0 <= j < i && (j == 0 || s@[j - 1] == ',') ==> !is_white_space(#[trigger] s@[j]),
        decreases n - i,
    {
        let c = s.get_char(i);
        let blank = white_space(c);
        if at_start && blank {
            return false;
        }
        proof {
            assert forall|j: int| 0 <= j < i + 1 && (j == 0 || s@[j - 1] == ',') implies !is_white_space(
                #[trigger] s@[j],
            ) by {
                if j == i {
                    assert(s@[j] == c);
                }
            }
        }
        at_start = c == ',';
        i = i + 1;
    }
    true
}

/// A directive list that this library compiles: no element begins with white
/// space, and `tracing_subscriber` accepts it.
pub open spec fn compiles(s: Seq<char>) -> bool {
    no_element_starts_blank(s) && directives_accepted(s)
}

/// A level name is a directive list with one element, which begins with a letter.
proof fn lemma_level_name_plain(l: SeverityLevel)
    ensures
        no_element_starts_blank(l.name()),
{
    let s = l.name();
    assert forall|i: int| 0 <= i < s.len() && (i == 0 || s[i - 1] == ',') implies !is_white_space(#[trigger] s[i]) by {
        assert('a' <= s[i] && s[i] <= 'z');
        if i > 0 {
            assert('a' <= s[i - 1] && s[i - 1] <= 'z');
        }
    }
}

/// Relies on `tracing_subscriber::EnvFilter::try_new`: it compiles a
/// comma-separated directive list, and whether it succeeds depends on the text
/// alone. An empty list yields the default filter, and a bare level name is a
/// valid directive. A failure is reported by its diagnostic text. Its parser
/// walks each element trimmed but slices it untrimmed, so an element that
/// begins with white space is never handed to it.
#[verifier::external_body]
fn compile_directives(directives: &str) -> (r: Result<EnvFilter, String>)
    requires
        no_element_starts_blank(directives@),
    ensures
        r is Ok == directives_accepted(directives@),
        directives@.len() == 0 ==> r is Ok,
        level_named(directives@) is Some ==> r is Ok,
{
    EnvFilter::try_new(directives).map_err(|e| e.to_string())
}

/// A directive list that is empty or a single canonical level name.
pub open spec fn plain_directives(s: Seq<char>) -> bool {
    s.len() == 0 || level_named(s) is Some
}

/// The text of each string of a sequence.
pub open spec fn texts(v: Seq<String>) -> Seq<Seq<char>> {
    v.map_values(|s: String| s@)
}

/// The parts joined into one string, with a comma between two neighbours.
pub open spec fn joined(parts: Seq<Seq<char>>) -> Seq<char>
    decreases parts.len(),
{
    if parts.len() == 0 {
        Seq::empty()
    } else if parts.len() == 1 {
        parts[0]
    } else {
        joined(parts.drop_last()) + seq![','] + parts.last()
    }
}

/// Joins directive strings into one comma-separated directive list.
pub fn join_directives(parts: &Vec<String>) -> (r: String)
    ensures
        r@ == joined(texts(parts@)),
{
    let mut out = String::new();
    let mut i: usize = 0;
    proof {
        reveal_strlit(",");
        assert(texts(parts@.subrange(0, 0)) =~= Seq::empty());
    }
    while i < parts.len()
        invariant
            i <= parts.len(),
            out@ == joined(texts(parts@.subrange(0, i as int))),
        decreases parts.len() - i,
    {
        let ghost before = out@;
        if i > 0 {
            out.append(",");
        }
        out.append(parts[i].as_str());
        proof {
            let prefix = texts(parts@.subrange(0, i as int + 1));
            assert(prefix.drop_last() =~= texts(parts@.subrange(0, i as int)));
            assert(prefix.last() == parts@[i as int]@);
            if i == 0 {
                assert(before =~= Seq::empty());
                assert(prefix.len() == 1);
                assert(prefix[0] == parts@[0]@);
                assert(out@ =~= parts@[0]@);
                assert(joined(prefix) == prefix[0]);
            } else {
                reveal_strlit(",");
                assert(","@ =~= seq![',']);
                assert(joined(prefix) == joined(prefix.drop_last()) + seq![','] + prefix.last());
                assert(out@ =~= joined(prefix));
            }
        }
        i = i + 1;
    }
    assert(parts@.subrange(0, parts@.len() as int) =~= parts@);
    out
}

/// A compiled filter expression together with the normalized directive list
/// it was compiled from; its view is that directive list.
pub struct EnvFilterWrapper {
    filter: EnvFilter,
    directives: String,
}

impl View for EnvFilterWrapper {
    type V = Seq<char>;

    closed spec fn view(&self) -> Seq<char> {
        self.directives@
    }
}

impl EnvFilterWrapper {
    #[verifier::type_invariant]
    closed spec fn inv(&self) -> bool {
        compiles(self.directives@)
    }

    /// Compiles a directive list that is known to be accepted.
    fn compile_accepted(directives: String) -> (r: Self)
        requires
            compiles(directives@),
        ensures
            r@ == directives@,
    {
        let filter = compile_directives(directives.as_str()).unwrap();
        EnvFilterWrapper { filter, directives }
    }

    /// The filter that passes events of `level` and of every more severe level.
    pub fn from_level(level: SeverityLevel) -> (r: Self)
        ensures
            r@ == level.name(),
    {
        let directives = String::from_str(level.as_str());
        proof {
            lemma_level_name_plain(level);
        }
        let filter = compile_directives(directives.as_str()).unwrap();
        EnvFilterWrapper { filter, directives }
    }

    /// Builds one filter expression from a sequence of directive strings,
    /// joined with commas. An empty sequence and a single level name always
    /// compile; an element that begins with white space never does.
    pub fn from_directives(parts: &Vec<String>) -> (r: Result<Self, TracingError>)
        ensures
            match r {
                Ok(f) => compiles(joined(texts(parts@))) && f@ == joined(texts(parts@)),
                Err(e) => {
                    &&& !compiles(joined(texts(parts@)))
                    &&& e is InvalidFilterExpression
                    &&& e->directives@ == joined(texts(parts@))
                },
            },
            plain_directives(joined(texts(parts@))) ==> r is Ok,
    {
        let directives = join_directives(parts);
        if !elements_start_plain(directives.as_str()) {
            proof {
                if level_named(directives@) is Some {
                    lemma_level_name_plain(level_named(directives@).unwrap());
                }
            }
            return Err(
                TracingError::InvalidFilterExpression {
                    directives,
                    diagnostic: String::from_str("a filter directive begins with white space"),
                },
            );
        }
        match compile_directives(directives.as_str()) {
            Ok(filter) => Ok(EnvFilterWrapper { filter, directives }),
            Err(diagnostic) => Err(TracingError::InvalidFilterExpression { directives, diagnostic }),
        }
    }

    /// A separately compiled filter with the same directive list.
    pub fn duplicate(&self) -> (r: Self)
        ensures
            r@ == self@,
    {
        proof {
            use_type_invariant(self);
        }
        Self::compile_accepted(self.directives.clone())
    }

    /// The normalized directive list.
    pub fn directives(&self) -> (r: &str)
        ensures
            r@ == self@,
    {
        self.directives.as_str()
    }

    /// Hands out the compiled filter and its directive list.
    pub fn into_parts(self) -> (r: (EnvFilter, String))
        ensures
            r.1@ == self@,
    {
        (self.filter, self.directives)
    }
}

impl Default for EnvFilterWrapper {
    /// The built-in default: severity `info`, with no further refinement.
    fn default() -> (r: Self)
        ensures
            r@ == SeverityLevel::Info.name(),
    {
        Self::from_level(SeverityLevel::Info)
    }
}

/// Index of the last `/` in `p`, or -1 where there is none.
pub open spec fn last_separator(p: Seq<char>) -> int
    decreases p.len(),
{
    if p.len() == 0 {
        -1
    } else if p.last() == '/' {
        p.len() - 1
    } else {
        last_separator(p.drop_last())
    }
}

/// The file-name component of a log path: what follows its last `/`.
pub open spec fn log_file_name(p: Seq<char>) -> Seq<char> {
    p.subrange(last_separator(p) + 1, p.len() as int)
}

/// Whether a log path names a file: its last component is neither empty
/// nor one of the directory references `.` and `..`.
pub open spec fn has_file_name(p: Seq<char>) -> bool {
    let f = log_file_name(p);
    f.len() > 0 && f != seq!['.'] && f != seq!['.', '.']
}

/// The directory component of a log path: what precedes its last `/`; the
/// root where that is the path's first character; the current directory `.`
/// where the path has no `/`.
pub open spec fn log_directory(p: Seq<char>) -> Seq<char> {
    let k = last_separator(p);
    if k < 0 {
        seq!['.']
    } else if k == 0 {
        seq!['/']
    } else {
        p.subrange(0, k)
    }
}

/// Where a logging layer writes.
#[derive(Debug)]
pub enum WriterTarget {
    /// Standard output, with ANSI colours.
    Stdout,
    /// A file in `directory` that starts anew at every hour boundary; its
    /// name starts with `file_name`. Written without ANSI control codes.
    HourlyFile { directory: String, file_name: String },
}

impl WriterTarget {
    /// Whether output to this target carries ANSI colour codes.
    pub fn ansi(&self) -> (r: bool)
        ensures
            r == (self is Stdout),
    {
        match self {
            WriterTarget::Stdout => true,
            WriterTarget::HourlyFile { .. } => false,
        }
    }
}

/// Configuration of a layer that writes to standard output.
pub struct StdoutWriterConfig {}

impl StdoutWriterConfig {
    pub fn configure(&self) -> (r: WriterTarget)
        ensures
            r is Stdout,
    {
        WriterTarget::Stdout
    }
}

/// Configuration of a layer that writes to an hourly rotating file.
pub struct RollingFileWriterConfig {
    pub log_path: String,
}

impl RollingFileWriterConfig {
    /// Splits the log path into the directory and the base file name of the
    /// rotating file. A path without a file name (empty, ending in `/`, or
    /// ending in a `.` or `..` component) is rejected.
    pub fn configure(&self) -> (r: Result<WriterTarget, TracingError>)
        ensures
            match r {
                Ok(t) => {
                    &&& has_file_name(self.log_path@)
                    &&& t is HourlyFile
                    &&& t->directory@ == log_directory(self.log_path@)
                    &&& t->file_name@ == log_file_name(self.log_path@)
                },
                Err(e) => {
                    &&& !has_file_name(self.log_path@)
                    &&& e is InvalidSinkPath
                    &&& e->path@ == self.log_path@
                },
            },
    {
        let path = self.log_path.as_str();
        let n = path.unicode_len();
        let mut i: usize = 0;
        let mut cut: usize = 0;
        let mut seen = false;
        while i < n
            invariant
                n == path@.len(),
                path@ == self.log_path@,
                i <= n,
                !seen ==> cut == 0,
                seen ==> 1 <= cut <= i,
                last_separator(path@.subrange(0, i as int)) == (if seen { cut - 1 } else { -1 }),
            decreases n - i,
        {
            proof {
                let next = path@.subrange(0, i as int + 1);
                assert(next.drop_last() =~= path@.subrange(0, i as int));
                assert(next.last() == path@[i as int]);
            }
            if path.get_char(i) == '/' {
                seen = true;
                cut = i + 1;
            }
            i = i + 1;
        }
        proof {
            assert(path@.subrange(0, n as int) =~= path@);
        }
        let tail = n - cut;
        let no_file_name = if tail == 0 {
            true
        } else if tail == 1 {
            path.get_char(cut) == '.'
        } else if tail == 2 {
            path.get_char(cut) == '.' && path.get_char(cut + 1) == '.'
        } else {
            false
        };
        proof {
            let f = log_file_name(path@);
            assert(f.len() == tail);
            if tail == 1 {
                assert(f[0] == path@[cut as int]);
                assert(seq!['.'].len() == 1 && seq!['.'][0] == '.');
                if path@[cut as int] == '.' {
                    assert(f =~= seq!['.']);
                }
            } else if tail == 2 {
                assert(f[0] == path@[cut as int]);
                assert(f[1] == path@[cut as int + 1]);
                assert(seq!['.', '.'][0] == '.' && seq!['.', '.'][1] == '.');
                if path@[cut as int] == '.' && path@[cut as int + 1] == '.' {
                    assert(f =~= seq!['.', '.']);
                }
            }
        }
        if no_file_name {
            return Err(TracingError::InvalidSinkPath { path: self.log_path.clone() });
        }
        let file_name = String::from_str(path.substring_char(cut, n));
        let directory = if !seen {
            let d = String::from_str(".");
            proof {
                reveal_strlit(".");
                assert(d@ =~= seq!['.']);
            }
            d
        } else if cut == 1 {
            let d = String::from_str("/");
            proof {
                reveal_strlit("/");
                assert(d@ =~= seq!['/']);
            }
            d
        } else {
            String::from_str(path.substring_char(0, cut - 1))
        };
        Ok(WriterTarget::HourlyFile { directory, file_name })
    }
}

/// The sink of one logging layer, tagged by its kind.
pub enum WriterConfig {
    Stdout(StdoutWriterConfig),
    RollingFile(RollingFileWriterConfig),
}

impl WriterConfig {
    /// Whether the sink can be built: a rotating file needs a file name.
    pub open spec fn valid(self) -> bool {
        match self {
            WriterConfig::Stdout(_) => true,
            WriterConfig::RollingFile(c) => has_file_name(c.log_path@),
        }
    }

    /// `t` is the target that this sink configuration describes.
    pub open spec fn describes(self, t: WriterTarget) -> bool {
        match self {
            WriterConfig::Stdout(_) => t is Stdout,
            WriterConfig::RollingFile(c) => {
                &&& t is HourlyFile
                &&& t->directory@ == log_directory(c.log_path@)
                &&& t->file_name@ == log_file_name(c.log_path@)
            },
        }
    }

    /// Builds the writer target of the sink.
    pub fn configure(&self) -> (r: Result<WriterTarget, TracingError>)
        ensures
            match r {
                Ok(t) => self.valid() && self.describes(t),
                Err(e) => {
                    &&& !self.valid()
                    &&& e is InvalidSinkPath
                    &&& self is RollingFile
                    &&& e->path@ == self->RollingFile_0.log_path@
                },
            },
    {
        match self {
            WriterConfig::Stdout(c) => Ok(c.configure()),
            WriterConfig::RollingFile(c) => c.configure(),
        }
    }
}

impl StdoutWriterConfig {
    pub fn duplicate(&self) -> (r: Self)
        ensures
            r == *self,
    {
        StdoutWriterConfig {}
    }
}

impl WriterConfig {
    pub fn duplicate(&self) -> (r: Self)
        ensures
            r == *self,
    {
        match self {
            WriterConfig::Stdout(c) => WriterConfig::Stdout(c.duplicate()),
            WriterConfig::RollingFile(c) => WriterConfig::RollingFile(
                RollingFileWriterConfig { log_path: c.log_path.clone() },
            ),
        }
    }
}

/// A filter as written in configuration: a single level name, or a sequence
/// of directive strings that are joined with commas.
pub enum RawFilter {
    Level(String),
    Directives(Vec<String>),
}

/// Whether a configured filter is valid.
pub open spec fn raw_filter_valid(raw: RawFilter) -> bool {
    match raw {
        RawFilter::Level(s) => level_named(s@) is Some,
        RawFilter::Directives(v) => compiles(joined(texts(v@))),
    }
}

/// Whether a configured filter is a canonical level name, or a directive
/// sequence that joins to an empty list or to a canonical level name.
pub open spec fn raw_filter_plain(raw: RawFilter) -> bool {
    match raw {
        RawFilter::Level(s) => level_named(s@) is Some,
        RawFilter::Directives(v) => plain_directives(joined(texts(v@))),
    }
}

/// The directive list of a configured filter.
pub open spec fn raw_filter_directives(raw: RawFilter) -> Seq<char> {
    match raw {
        RawFilter::Level(s) => s@,
        RawFilter::Directives(v) => joined(texts(v@)),
    }
}

/// `e` is the error that reports the invalid configured filter `raw`.
pub open spec fn raw_filter_error(raw: RawFilter, e: TracingError) -> bool {
    match raw {
        RawFilter::Level(s) => {
            &&& e is InvalidLevelValue
            &&& e->value@ == s@
            &&& e->accepted@ == all_levels()
        },
        RawFilter::Directives(v) => {
            &&& e is InvalidFilterExpression
            &&& e->directives@ == joined(texts(v@))
        },
    }
}

/// Parses and compiles a configured filter.
pub fn parse_filter(raw: &RawFilter) -> (r: Result<EnvFilterWrapper, TracingError>)
    ensures
        match r {
            Ok(f) => raw_filter_valid(*raw) && f@ == raw_filter_directives(*raw),
            Err(e) => !raw_filter_valid(*raw) && raw_filter_error(*raw, e),
        },
        raw_filter_plain(*raw) ==> r is Ok,
{
    match raw {
        RawFilter::Level(s) => match parse_level(s.as_str()) {
            Ok(level) => Ok(EnvFilterWrapper::from_level(level)),
            Err(e) => Err(e),
        },
        RawFilter::Directives(v) => EnvFilterWrapper::from_directives(v),
    }
}

/// One layer entry as written in configuration.
pub struct RawLayerConfig {
    pub filter: Option<RawFilter>,
    pub writer: WriterConfig,
}

/// The logging section as written in configuration.
pub struct RawTracingConfig {
    pub filter: Option<RawFilter>,
    pub layers: Option<Vec<RawLayerConfig>>,
}

/// The outcome of looking the logging section up in the configuration tree.
pub enum SectionLookup {
    Found(RawTracingConfig),
    NotFound,
    Malformed(String),
}

/// Whether an optional configured filter is absent or valid.
pub open spec fn optional_filter_valid(raw: Option<RawFilter>) -> bool {
    match raw {
        Some(f) => raw_filter_valid(f),
        None => true,
    }
}

/// Whether an optional configured filter is absent or plain.
pub open spec fn optional_filter_plain(raw: Option<RawFilter>) -> bool {
    match raw {
        Some(f) => raw_filter_plain(f),
        None => true,
    }
}

/// The layer entries of a configured section; none where the list is absent.
pub open spec fn raw_layers(c: RawTracingConfig) -> Seq<RawLayerConfig> {
    match c.layers {
        Some(v) => v@,
        None => Seq::empty(),
    }
}

/// Whether every filter of a configured section is valid.
pub open spec fn raw_config_valid(c: RawTracingConfig) -> bool {
    &&& optional_filter_valid(c.filter)
    &&& forall|i: int| 0 <= i < raw_layers(c).len() ==> optional_filter_valid(#[trigger] raw_layers(c)[i].filter)
}

/// Whether every filter of a configured section is absent or plain.
pub open spec fn raw_config_plain(c: RawTracingConfig) -> bool {
    &&& optional_filter_plain(c.filter)
    &&& forall|i: int| 0 <= i < raw_layers(c).len() ==> optional_filter_plain(#[trigger] raw_layers(c)[i].filter)
}

/// The default directive list of a configured section: its own filter, or
/// `info` where it has none.
pub open spec fn default_directives(c: RawTracingConfig) -> Seq<char> {
    match c.filter {
        Some(f) => raw_filter_directives(f),
        None => SeverityLevel::Info.name(),
    }
}

/// A layer entry with its filter override, if any, compiled.
pub struct LayerConfig {
    pub filter: Option<EnvFilterWrapper>,
    pub writer: WriterConfig,
}

/// `l` is the compiled form of the configured entry `raw`.
pub open spec fn layer_compiled_from(l: LayerConfig, raw: RawLayerConfig) -> bool {
    &&& l.writer == raw.writer
    &&& l.filter is Some == raw.filter is Some
    &&& l.filter is Some ==> l.filter.unwrap()@ == raw_filter_directives(raw.filter.unwrap())
}

/// The logging pipeline's configuration: a default filter and the layers, in order.
pub struct TracingConfig {
    pub filter: EnvFilterWrapper,
    pub layers: Vec<LayerConfig>,
}

/// `t` is the compiled form of the configured section `c`.
pub open spec fn config_compiled_from(t: TracingConfig, c: RawTracingConfig) -> bool {
    &&& t.filter@ == default_directives(c)
    &&& t.layers@.len() == raw_layers(c).len()
    &&& forall|i: int| 0 <= i < t.layers@.len() ==> layer_compiled_from(#[trigger] t.layers@[i], raw_layers(c)[i])
}

/// `e` reports the first invalid filter of the configured section `c`: its
/// default filter, else the override of the first layer entry whose one is invalid.
pub open spec fn config_error(c: RawTracingConfig, e: TracingError) -> bool {
    if !optional_filter_valid(c.filter) {
        raw_filter_error(c.filter.unwrap(), e)
    } else {
        exists|i: int|
            0 <= i < raw_layers(c).len() && !optional_filter_valid(#[trigger] raw_layers(c)[i].filter) && (
            forall|j: int| 0 <= j < i ==> optional_filter_valid(#[trigger] raw_layers(c)[j].filter))
                && raw_filter_error(raw_layers(c)[i].filter.unwrap(), e)
    }
}

impl TracingConfig {
    /// The built-in configuration: severity `info` and no layers.
    pub fn builtin() -> (r: Self)
        ensures
            r.filter@ == SeverityLevel::Info.name(),
            r.layers@.len() == 0,
    {
        TracingConfig { filter: EnvFilterWrapper::from_level(SeverityLevel::Info), layers: Vec::new() }
    }

    /// Compiles every filter of a configured section, stopping at the first invalid one.
    pub fn from_raw(raw: &RawTracingConfig) -> (r: Result<Self, TracingError>)
        ensures
            match r {
                Ok(t) => raw_config_valid(*raw) && config_compiled_from(t, *raw),
                Err(e) => !raw_config_valid(*raw) && config_error(*raw, e),
            },
            raw_config_plain(*raw) ==> r is Ok,
    {
        let filter = match &raw.filter {
            Some(f) => match parse_filter(f) {
                Ok(f) => f,
                Err(e) => return Err(e),
            },
            None => EnvFilterWrapper::from_level(SeverityLevel::Info),
        };
        assert(optional_filter_valid(raw.filter));
        assert(filter@ == default_directives(*raw));
        let mut layers: Vec<LayerConfig> = Vec::new();
        match &raw.layers {
            None => {},
            Some(entries) => {
                let mut i: usize = 0;
                while i < entries.len()
                    invariant
                        raw.layers == Some(*entries),
                        optional_filter_valid(raw.filter),
                        filter@ == default_directives(*raw),
                        i <= entries.len(),
                        layers@.len() == i,
                        forall|j: int| 0 <= j < i ==> optional_filter_valid(#[trigger] entries@[j].filter),
                        forall|j: int| 0 <= j < i ==> layer_compiled_from(#[trigger] layers@[j], entries@[j]),
                    decreases entries.len() - i,
                {
                    let entry = &entries[i];
                    let override_filter = match &entry.filter {
                        Some(f) => match parse_filter(f) {
                            Ok(f) => Some(f),
                            Err(e) => {
                                proof {
                                    assert(optional_filter_valid(raw.filter));
                                    assert(raw_layers(*raw) == entries@);
                                    assert(!optional_filter_valid(raw_layers(*raw)[i as int].filter));
                                    assert(forall|j: int| 0 <= j < i ==> optional_filter_valid(#[trigger] raw_layers(*raw)[j].filter));
                                    assert(raw_filter_error(raw_layers(*raw)[i as int].filter.unwrap(), e));
                                    assert(!optional_filter_plain(raw_layers(*raw)[i as int].filter));
                                }
                                return Err(e);
                            },
                        },
                        None => None,
                    };
                    layers.push(LayerConfig { filter: override_filter, writer: entry.writer.duplicate() });
                    i = i + 1;
                }
            },
        }
        Ok(TracingConfig { filter, layers })
    }

    /// Reads the logging configuration from the outcome of looking its section
    /// up. An absent section gives the built-in configuration; a malformed one
    /// is an error.
    pub fn from_lookup(lookup: &SectionLookup) -> (r: Result<Self, TracingError>)
        ensures
            match *lookup {
                SectionLookup::NotFound => r is Ok && r->Ok_0.filter@ == SeverityLevel::Info.name()
                    && r->Ok_0.layers@.len() == 0,
                SectionLookup::Malformed(reason) => r is Err && r->Err_0 is ConfigurationMalformed
                    && r->Err_0->reason@ == reason@,
                SectionLookup::Found(c) => {
                    &&& match r {
                        Ok(t) => raw_config_valid(c) && config_compiled_from(t, c),
                        Err(e) => !raw_config_valid(c) && config_error(c, e),
                    }
                    &&& raw_config_plain(c) ==> r is Ok
                },
            },
    {
        match lookup {
            SectionLookup::NotFound => Ok(Self::builtin()),
            SectionLookup::Malformed(reason) => Err(TracingError::ConfigurationMalformed { reason: reason.clone() }),
            SectionLookup::Found(c) => Self::from_raw(c),
        }
    }
}

/// The filter in effect for a layer: its own override, else the pipeline's default.
pub open spec fn effective(layer: LayerConfig, default: EnvFilterWrapper) -> EnvFilterWrapper {
    match layer.filter {
        Some(f) => f,
        None => default,
    }
}

/// Resolves the filter in effect for a layer, without compiling anything:
/// the layer's own override, or else the very default filter it is given.
pub fn effective_filter<'a>(layer: &'a LayerConfig, default: &'a EnvFilterWrapper) -> (r: &'a EnvFilterWrapper)
    ensures
        *r == effective(*layer, *default),
        layer.filter is None ==> *r == *default,
{
    match &layer.filter {
        Some(f) => f,
        None => default,
    }
}

/// One layer ready to be installed: where it writes, and what passes its filter.
pub struct AssembledLayer {
    pub target: WriterTarget,
    pub filter: EnvFilterWrapper,
}

/// Builds the layer of one entry, with the filter that is in effect for it.
fn configure_layer(layer: &LayerConfig, default: &EnvFilterWrapper) -> (r: Result<AssembledLayer, TracingError>)
    ensures
        match r {
            Ok(a) => {
                &&& layer.writer.valid()
                &&& layer.writer.describes(a.target)
                &&& a.filter@ == effective(*layer, *default)@
            },
            Err(e) => {
                &&& !layer.writer.valid()
                &&& e is InvalidSinkPath
                &&& e->path@ == layer.writer->RollingFile_0.log_path@
            },
        },
{
    let target = match layer.writer.configure() {
        Ok(t) => t,
        Err(e) => return Err(e),
    };
    let filter = effective_filter(layer, default).duplicate();
    Ok(AssembledLayer { target, filter })
}

/// `e` reports the first layer whose sink cannot be built.
pub open spec fn assembly_error(config: TracingConfig, e: TracingError) -> bool {
    exists|i: int|
        0 <= i < config.layers@.len() && !(#[trigger] config.layers@[i]).writer.valid() && (forall|j: int|
            0 <= j < i ==> (#[trigger] config.layers@[j]).writer.valid()) && e is InvalidSinkPath
            && e->path@ == config.layers@[i].writer->RollingFile_0.log_path@
}

/// Whether every layer's sink can be built.
pub open spec fn all_sinks_valid(config: TracingConfig) -> bool {
    forall|i: int| 0 <= i < config.layers@.len() ==> (#[trigger] config.layers@[i]).writer.valid()
}

/// Builds every layer of the pipeline, in the configured order, each with the
/// filter in effect for it. Nothing is built when one sink is invalid.
pub fn assemble_pipeline(config: &TracingConfig) -> (r: Result<Vec<AssembledLayer>, TracingError>)
    ensures
        match r {
            Ok(v) => {
                &&& all_sinks_valid(*config)
                &&& v@.len() == config.layers@.len()
                &&& forall|i: int| 0 <= i < v@.len() ==> {
                    &&& (#[trigger] config.layers@[i]).writer.describes(v@[i].target)
                    &&& v@[i].filter@ == effective(config.layers@[i], config.filter)@
                }
            },
            Err(e) => !all_sinks_valid(*config) && assembly_error(*config, e),
        },
{
    let mut built: Vec<AssembledLayer> = Vec::new();
    let mut i: usize = 0;
    while i < config.layers.len()
        invariant
            i <= config.layers@.len(),
            built@.len() == i,
            forall|j: int| 0 <= j < i ==> (#[trigger] config.layers@[j]).writer.valid(),
            forall|j: int| 0 <= j < i ==> {
                &&& (#[trigger] config.layers@[j]).writer.describes(built@[j].target)
                &&& built@[j].filter@ == effective(config.layers@[j], config.filter)@
            },
        decreases config.layers@.len() - i,
    {
        match configure_layer(&config.layers[i], &config.filter) {
            Ok(layer) => built.push(layer),
            Err(e) => {
                assert(!config.layers@[i as int].writer.valid());
                return Err(e);
            },
        }
        i = i + 1;
    }
    Ok(built)
}

/// What installing a pipeline of `sinks` layers does to the slot whose
/// installed pipeline has `active` layers, if any: the new slot, and whether
/// the installation was accepted.
pub open spec fn install_step(active: Option<nat>, sinks: nat) -> (Option<nat>, bool) {
    match active {
        Some(n) => (Some(n), false),
        None => (Some(sinks), true),
    }
}

/// The process's one logging-pipeline slot. It can be claimed once; every
/// later claim is refused and leaves the installed pipeline as it is.
pub struct PipelineSlot {
    active_sinks: Option<usize>,
}

impl PipelineSlot {
    /// The number of layers of the installed pipeline, if one is installed.
    pub closed spec fn active(&self) -> Option<nat> {
        match self.active_sinks {
            Some(n) => Some(n as nat),
            None => None,
        }
    }

    /// An empty slot.
    pub fn new() -> (r: Self)
        ensures
            r.active() is None,
    {
        PipelineSlot { active_sinks: None }
    }

    pub fn active_sinks(&self) -> (r: Option<usize>)
        ensures
            r is Some == self.active() is Some,
            r is Some ==> r->0 as nat == self.active()->0,
    {
        self.active_sinks
    }

    /// Records the installation of a pipeline of `sinks` layers. Refused with
    /// `AlreadyInitialized` when a pipeline is installed already.
    pub fn install(&mut self, sinks: usize) -> (r: Result<(), TracingError>)
        ensures
            (final(self).active(), r is Ok) == install_step(old(self).active(), sinks as nat),
            r is Err ==> r->Err_0 is AlreadyInitialized,
    {
        match self.active_sinks {
            Some(_) => Err(TracingError::AlreadyInitialized),
            None => {
                self.active_sinks = Some(sinks);
                Ok(())
            },
        }
    }
}

/// Every canonical level name parses to its level, and the levels come in
/// the order `Trace < Debug < Info < Warn < Error`.
pub proof fn lemma_levels_parse_in_order()
    ensures
        forall|i: int| 0 <= i < all_levels().len() ==> level_named((#[trigger] all_levels()[i]).name()) == Some(all_levels()[i]),
        forall|i: int, j: int| 0 <= i < j < all_levels().len() ==> (#[trigger] all_levels()[i]).rank() < (#[trigger] all_levels()[j]).rank(),
{
    assert(SeverityLevel::Debug.name() != SeverityLevel::Trace.name());
    assert(SeverityLevel::Info.name() != SeverityLevel::Trace.name());
    assert(SeverityLevel::Info.name() != SeverityLevel::Debug.name());
    assert(SeverityLevel::Warn.name() != SeverityLevel::Trace.name());
    assert(SeverityLevel::Warn.name() != SeverityLevel::Debug.name());
    assert(SeverityLevel::Warn.name() != SeverityLevel::Info.name());
    assert(SeverityLevel::Error.name() != SeverityLevel::Trace.name());
    assert(SeverityLevel::Error.name() != SeverityLevel::Debug.name());
    assert(SeverityLevel::Error.name() != SeverityLevel::Info.name());
    assert(SeverityLevel::Error.name() != SeverityLevel::Warn.name());
}

/// Re-parsing a combined directive list gives the same expression: where
/// `combined` holds the directive strings `parts` joined with commas, the
/// one-element sequence `[combined]` joins to the same directive list, which
/// compiles exactly when the original one does.
pub proof fn lemma_rejoin_idempotent(parts: Seq<String>, combined: String)
    requires
        combined@ == joined(texts(parts)),
    ensures
        joined(texts(seq![combined])) == joined(texts(parts)),
        compiles(joined(texts(seq![combined]))) == compiles(joined(texts(parts))),
{
    assert(texts(seq![combined]) =~= seq![combined@]);
}

/// Installing twice: the first installation is accepted, the second is
/// refused, and the slot still holds the first pipeline.
pub proof fn lemma_install_once(first: nat, second: nat)
    ensures
        install_step(None, first).1,
        !install_step(install_step(None, first).0, second).1,
        install_step(install_step(None, first).0, second).0 == Some(first),
{
}

} // verus!
