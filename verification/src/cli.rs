//! Command-line interface: the grammar of `scam`'s arguments.
//!
//! ```text
//! scam <+|-> <SOURCE> <DESTINATION> [OPTIONS]
//! ```
//!
//! Options with a value accept it attached (`--jobs=4`) or as the next
//! argument (`--jobs 4`); each option may be given once; `--` ends the options.

use vstd::prelude::*;
use vstd::string::*;

use crate::model::{
    DEFAULT_COPY_BUFFER_SIZE, DEFAULT_HASH_BUFFER_SIZE, ExecutionSettings, Operation,
};

verus! {

/// Whether `c` is an ASCII decimal digit.
pub open spec fn is_digit(c: char) -> bool {
    '0' <= c <= '9'
}

/// The value of the decimal digits `s` (most significant first).
pub open spec fn digits_value(s: Seq<char>) -> nat
    decreases s.len(),
{
    if s.len() == 0 {
        0
    } else {
        digits_value(s.drop_last()) * 10 + (s.last() as nat - 48) as nat
    }
}

/// The number written in `s` as Rust's unsigned integer parsing reads it: an
/// optional `+` followed by one or more decimal digits.
pub open spec fn decimal_value(s: Seq<char>) -> Option<nat> {
    if unsigned_digits(s).len() > 0 && all_digits(unsigned_digits(s)) {
        Some(digits_value(unsigned_digits(s)))
    } else {
        None
    }
}

/// `s` without a leading `+`.
pub open spec fn unsigned_digits(s: Seq<char>) -> Seq<char> {
    if s.len() > 0 && s[0] == '+' { s.drop_first() } else { s }
}

/// Whether every character of `s` is a decimal digit.
pub open spec fn all_digits(s: Seq<char>) -> bool {
    forall|i: int| 0 <= i < s.len() ==> is_digit(#[trigger] s[i])
}

/// The number written in `s` when it is at most `max`.
pub open spec fn bounded_decimal(s: Seq<char>, max: nat) -> Option<nat> {
    match decimal_value(s) {
        Some(v) => if v <= max { Some(v) } else { None },
        None => None,
    }
}

proof fn lemma_digits_value_grows(s: Seq<char>, i: int)
    requires
        0 <= i <= s.len(),
        forall|j: int| 0 <= j < s.len() ==> is_digit(#[trigger] s[j]),
    ensures
        digits_value(s.take(i)) <= digits_value(s),
    decreases s.len() - i,
{
    if i < s.len() {
        lemma_digits_value_grows(s, i + 1);
        assert(s.take(i + 1).drop_last() =~= s.take(i));
    } else {
        assert(s.take(i) =~= s);
    }
}

/// The characters of `s`.
pub fn chars_of(s: &str) -> (v: Vec<char>)
    ensures
        v@ == s@,
{
    let n = s.unicode_len();
    let mut v: Vec<char> = Vec::new();
    let mut i: usize = 0;
    while i < n
        invariant
            n == s@.len(),
            i <= n,
            v@ == s@.take(i as int),
        decreases n - i,
    {
        v.push(s.get_char(i));
        assert(v@ =~= s@.take(i + 1));
        i = i + 1;
    }
    assert(s@.take(n as int) =~= s@);
    v
}

/// Whether the characters `v` spell `lit`.
pub fn spells(v: &[char], lit: &str) -> (r: bool)
    ensures
        r == (v@ == lit@),
{
    let n = lit.unicode_len();
    if v.len() != n {
        return false;
    }
    let mut i: usize = 0;
    while i < n
        invariant
            n == lit@.len() == v@.len(),
            i <= n,
            forall|j: int| 0 <= j < i ==> v@[j] == lit@[j],
        decreases n - i,
    {
        if v[i] != lit.get_char(i) {
            return false;
        }
        i = i + 1;
    }
    assert(v@ =~= lit@);
    true
}

/// The characters `v[from..to]`.
pub fn chars_between(v: &[char], from: usize, to: usize) -> (r: Vec<char>)
    requires
        from <= to <= v@.len(),
    ensures
        r@ == v@.subrange(from as int, to as int),
{
    let mut r: Vec<char> = Vec::new();
    let mut i = from;
    while i < to
        invariant
            from <= i <= to <= v@.len(),
            r@ == v@.subrange(from as int, i as int),
        decreases to - i,
    {
        r.push(v[i]);
        assert(r@ =~= v@.subrange(from as int, i + 1));
        i = i + 1;
    }
    r
}

/// Parse the decimal number in `v` (Rust's unsigned integer syntax) if it is at most `max`.
pub fn parse_decimal(v: &[char], max: u64) -> (r: Option<u64>)
    ensures
        r is None <==> bounded_decimal(v@, max as nat) is None,
        r matches Some(n) ==> bounded_decimal(v@, max as nat) == Some(n as nat),
{
    let start: usize = if v.len() > 0 && v[0] == '+' { 1 } else { 0 };
    let ghost digits = unsigned_digits(v@);
    assert(digits =~= v@.subrange(start as int, v@.len() as int));
    if start >= v.len() {
        assert(digits.len() == 0);
        return None;
    }
    let mut i = start;
    while i < v.len()
        invariant
            start <= i <= v@.len(),
            digits =~= v@.subrange(start as int, v@.len() as int),
            digits == unsigned_digits(v@),
            forall|j: int| start <= j < i ==> is_digit(#[trigger] v@[j]),
        decreases v@.len() - i,
    {
        if !('0' <= v[i] && v[i] <= '9') {
            assert(!is_digit(digits[i - start]));
            return None;
        }
        i = i + 1;
    }
    assert(forall|j: int| 0 <= j < digits.len() ==> is_digit(#[trigger] digits[j])) by {
        assert forall|j: int| 0 <= j < digits.len() implies is_digit(#[trigger] digits[j]) by {
            assert(digits[j] == v@[start + j]);
        }
    }
    let mut acc: u64 = 0;
    let mut k = start;
    while k < v.len()
        invariant
            start <= k <= v@.len(),
            digits =~= v@.subrange(start as int, v@.len() as int),
            digits == unsigned_digits(v@),
            forall|j: int| 0 <= j < digits.len() ==> is_digit(#[trigger] digits[j]),
            acc as nat == digits_value(digits.take(k - start)),
            acc <= max,
        decreases v@.len() - k,
    {
        let ghost pre = digits.take(k - start);
        assert(digits.take(k - start + 1).drop_last() =~= pre);
        assert(digits.take(k - start + 1).last() == v@[k as int]);
        assert(is_digit(digits[k - start]));
        let d = (v[k] as u32 - 48) as u64;
        assert(digits_value(digits.take(k - start + 1)) == acc * 10 + d);
        let next = match acc.checked_mul(10) {
            Some(t) => t.checked_add(d),
            None => None,
        };
        match next {
            Some(n) if n <= max => {
                acc = n;
            },
            _ => {
                proof {
                    lemma_digits_value_grows(digits, k - start + 1);
                    assert(digits_value(digits) > max);
                }
                return None;
            },
        }
        k = k + 1;
    }
    assert(digits.take(digits.len() as int) =~= digits);
    Some(acc)
}

/// An option that takes a value.
#[derive(Debug, Clone, Copy, PartialEq, Eq, Structural)]
pub enum ValueOption {
    /// `--hash-buffer-size <BYTES>`
    HashBufferSize,
    /// `--copy-buffer-size <BYTES>`
    CopyBufferSize,
    /// `--max-retries <COUNT>`
    MaxRetries,
    /// `--retry-delay-ms <MILLISECONDS>`
    RetryDelayMs,
    /// `--jobs <COUNT>`
    Jobs,
}

/// An option without a value.
#[derive(Debug, Clone, Copy, PartialEq, Eq, Structural)]
pub enum Flag {
    /// `--progress`
    Progress,
    /// `--verbose`, `-v`
    Verbose,
    /// `--help`, `-h`
    Help,
    /// `--version`, `-V`
    Version,
}

/// A positional argument.
#[derive(Debug, Clone, Copy, PartialEq, Eq, Structural)]
pub enum Positional {
    Operation,
    Source,
    Destination,
}

/// Why the arguments were not accepted.
#[derive(Debug)]
pub enum CliError {
    /// `--help` or `-h` was given.
    HelpRequested,
    /// `--version` or `-V` was given.
    VersionRequested,
    /// An argument that is not an option of `scam`.
    UnknownArgument(String),
    /// A flag was given a value with `=`.
    UnexpectedValue(Flag),
    /// An option that takes a value was the last argument, or was followed by another option.
    MissingValue(ValueOption),
    /// An option was given twice.
    DuplicateOption(ValueOption),
    /// A flag was given twice.
    DuplicateFlag(Flag),
    /// The operation is neither `+` nor `-`.
    InvalidOperation(String),
    /// The value is not a number in range.
    InvalidNumber { option: ValueOption, value: String },
    /// The value must be greater than zero.
    ZeroNotAllowed(ValueOption),
    /// More than three positional arguments.
    UnexpectedPositional(String),
    /// A positional argument is missing.
    MissingPositional(Positional),
}

/// [`CliError`] with its text as characters.
pub enum CliErrorView {
    HelpRequested,
    VersionRequested,
    UnknownArgument(Seq<char>),
    UnexpectedValue(Flag),
    MissingValue(ValueOption),
    DuplicateOption(ValueOption),
    DuplicateFlag(Flag),
    InvalidOperation(Seq<char>),
    InvalidNumber { option: ValueOption, value: Seq<char> },
    ZeroNotAllowed(ValueOption),
    UnexpectedPositional(Seq<char>),
    MissingPositional(Positional),
}

impl View for CliError {
    type V = CliErrorView;

    open spec fn view(&self) -> CliErrorView {
        match self {
            CliError::HelpRequested => CliErrorView::HelpRequested,
            CliError::VersionRequested => CliErrorView::VersionRequested,
            CliError::UnknownArgument(s) => CliErrorView::UnknownArgument(s@),
            CliError::UnexpectedValue(f) => CliErrorView::UnexpectedValue(*f),
            CliError::MissingValue(o) => CliErrorView::MissingValue(*o),
            CliError::DuplicateOption(o) => CliErrorView::DuplicateOption(*o),
            CliError::DuplicateFlag(f) => CliErrorView::DuplicateFlag(*f),
            CliError::InvalidOperation(s) => CliErrorView::InvalidOperation(s@),
            CliError::InvalidNumber { option, value } => CliErrorView::InvalidNumber {
                option: *option,
                value: value@,
            },
            CliError::ZeroNotAllowed(o) => CliErrorView::ZeroNotAllowed(*o),
            CliError::UnexpectedPositional(s) => CliErrorView::UnexpectedPositional(s@),
            CliError::MissingPositional(p) => CliErrorView::MissingPositional(*p),
        }
    }
}

/// Parsed command-line arguments.
#[derive(Debug)]
pub struct Cli {
    /// `+` copies, `-` moves after verification.
    pub operation: Operation,
    /// Source file or directory, as text.
    pub source: String,
    /// Position in the command line of the argument that names the source.
    pub source_index: usize,
    /// Destination file or directory, as text.
    pub destination: String,
    /// Position in the command line of the argument that names the destination.
    pub destination_index: usize,
    /// Read buffer size in bytes used while hashing files.
    pub hash_buffer_size: usize,
    /// Buffer size in bytes used while copying file payloads.
    pub copy_buffer_size: usize,
    /// Maximum number of attempts per file; `None` for unlimited retries.
    pub max_retries: Option<usize>,
    /// Milliseconds to wait between failed attempts.
    pub retry_delay_ms: u64,
    /// Number of worker threads used for directory file transfers.
    pub jobs: usize,
    /// Print aggregate live progress to stderr.
    pub progress: bool,
    /// Print a success summary to stderr after completion.
    pub verbose: bool,
}

/// [`Cli`] with its text as characters.
pub struct CliView {
    pub operation: Operation,
    pub source: Seq<char>,
    pub source_index: nat,
    pub destination: Seq<char>,
    pub destination_index: nat,
    pub hash_buffer_size: usize,
    pub copy_buffer_size: usize,
    pub max_retries: Option<usize>,
    pub retry_delay_ms: u64,
    pub jobs: usize,
    pub progress: bool,
    pub verbose: bool,
}

impl View for Cli {
    type V = CliView;

    open spec fn view(&self) -> CliView {
        CliView {
            operation: self.operation,
            source: self.source@,
            source_index: self.source_index as nat,
            destination: self.destination@,
            destination_index: self.destination_index as nat,
            hash_buffer_size: self.hash_buffer_size,
            copy_buffer_size: self.copy_buffer_size,
            max_retries: self.max_retries,
            retry_delay_ms: self.retry_delay_ms,
            jobs: self.jobs,
            progress: self.progress,
            verbose: self.verbose,
        }
    }
}

/// What has been read of the arguments so far.
#[derive(Debug)]
pub struct ArgState {
    /// `--` was seen: every further argument is positional.
    pub escaped: bool,
    /// The option whose value is the next argument.
    pub pending: Option<ValueOption>,
    pub operation: Option<Operation>,
    pub source: Option<String>,
    /// Position of the argument read as the source.
    pub source_index: usize,
    pub destination: Option<String>,
    /// Position of the argument read as the destination.
    pub destination_index: usize,
    pub hash_buffer_size: Option<usize>,
    pub copy_buffer_size: Option<usize>,
    pub max_retries: Option<usize>,
    pub retry_delay_ms: Option<u64>,
    pub jobs: Option<usize>,
    pub progress: bool,
    pub verbose: bool,
}

/// [`ArgState`] with its text as characters.
pub struct ArgStateView {
    pub escaped: bool,
    pub pending: Option<ValueOption>,
    pub operation: Option<Operation>,
    pub source: Option<Seq<char>>,
    pub source_index: nat,
    pub destination: Option<Seq<char>>,
    pub destination_index: nat,
    pub hash_buffer_size: Option<usize>,
    pub copy_buffer_size: Option<usize>,
    pub max_retries: Option<usize>,
    pub retry_delay_ms: Option<u64>,
    pub jobs: Option<usize>,
    pub progress: bool,
    pub verbose: bool,
}

pub open spec fn text_view(s: Option<String>) -> Option<Seq<char>> {
    match s {
        Some(t) => Some(t@),
        None => None,
    }
}

impl View for ArgState {
    type V = ArgStateView;

    open spec fn view(&self) -> ArgStateView {
        ArgStateView {
            escaped: self.escaped,
            pending: self.pending,
            operation: self.operation,
            source: text_view(self.source),
            source_index: self.source_index as nat,
            destination: text_view(self.destination),
            destination_index: self.destination_index as nat,
            hash_buffer_size: self.hash_buffer_size,
            copy_buffer_size: self.copy_buffer_size,
            max_retries: self.max_retries,
            retry_delay_ms: self.retry_delay_ms,
            jobs: self.jobs,
            progress: self.progress,
            verbose: self.verbose,
        }
    }
}

/// A result with both sides seen through their views.
pub open spec fn result_view<T: View, E: View>(r: Result<T, E>) -> Result<T::V, E::V> {
    match r {
        Ok(t) => Ok(t@),
        Err(e) => Err(e@),
    }
}

/// Nothing read yet.
pub open spec fn initial_state() -> ArgStateView {
    ArgStateView {
        escaped: false,
        pending: None,
        operation: None,
        source: None,
        source_index: 0,
        destination: None,
        destination_index: 0,
        hash_buffer_size: None,
        copy_buffer_size: None,
        max_retries: None,
        retry_delay_ms: None,
        jobs: None,
        progress: false,
        verbose: false,
    }
}

/// Index of the first `=` in `s` (its length when there is none).
pub open spec fn index_of_equals(s: Seq<char>) -> int
    decreases s.len(),
{
    if s.len() == 0 {
        0
    } else if s[0] == '=' {
        0
    } else {
        1 + index_of_equals(s.drop_first())
    }
}

/// Whether option `o` was already given.
pub open spec fn option_given(st: ArgStateView, o: ValueOption) -> bool {
    match o {
        ValueOption::HashBufferSize => st.hash_buffer_size is Some,
        ValueOption::CopyBufferSize => st.copy_buffer_size is Some,
        ValueOption::MaxRetries => st.max_retries is Some,
        ValueOption::RetryDelayMs => st.retry_delay_ms is Some,
        ValueOption::Jobs => st.jobs is Some,
    }
}

/// The option with the long name `name`.
pub open spec fn value_option_named(name: Seq<char>) -> Option<ValueOption> {
    if name == "hash-buffer-size"@ {
        Some(ValueOption::HashBufferSize)
    } else if name == "copy-buffer-size"@ {
        Some(ValueOption::CopyBufferSize)
    } else if name == "max-retries"@ {
        Some(ValueOption::MaxRetries)
    } else if name == "retry-delay-ms"@ {
        Some(ValueOption::RetryDelayMs)
    } else if name == "jobs"@ {
        Some(ValueOption::Jobs)
    } else {
        None
    }
}

/// The flag with the long name `name`.
pub open spec fn flag_named(name: Seq<char>) -> Option<Flag> {
    if name == "progress"@ {
        Some(Flag::Progress)
    } else if name == "verbose"@ {
        Some(Flag::Verbose)
    } else if name == "help"@ {
        Some(Flag::Help)
    } else if name == "version"@ {
        Some(Flag::Version)
    } else {
        None
    }
}

/// The operation written `t`: `+` copies, `-` moves.
pub open spec fn operation_value(t: Seq<char>) -> Result<Operation, CliErrorView> {
    if t == "+"@ {
        Ok(Operation::Copy)
    } else if t == "-"@ {
        Ok(Operation::Move)
    } else {
        Err(CliErrorView::InvalidOperation(t))
    }
}

/// The value `v` of option `o`, which must be a number greater than zero.
pub open spec fn positive_value(o: ValueOption, v: Seq<char>) -> Result<usize, CliErrorView> {
    match bounded_decimal(v, usize::MAX as nat) {
        None => Err(CliErrorView::InvalidNumber { option: o, value: v }),
        Some(n) => if n == 0 {
            Err(CliErrorView::ZeroNotAllowed(o))
        } else {
            Ok(n as usize)
        },
    }
}

/// Option `o` given the value `v`.
pub open spec fn assign_value(st: ArgStateView, o: ValueOption, v: Seq<char>) -> Result<
    ArgStateView,
    CliErrorView,
> {
    if o == ValueOption::RetryDelayMs {
        match bounded_decimal(v, u64::MAX as nat) {
            None => Err(CliErrorView::InvalidNumber { option: o, value: v }),
            Some(n) => Ok(ArgStateView { retry_delay_ms: Some(n as u64), ..st }),
        }
    } else {
        match positive_value(o, v) {
            Err(e) => Err(e),
            Ok(n) => match o {
                ValueOption::HashBufferSize => Ok(ArgStateView { hash_buffer_size: Some(n), ..st }),
                ValueOption::CopyBufferSize => Ok(ArgStateView { copy_buffer_size: Some(n), ..st }),
                ValueOption::MaxRetries => Ok(ArgStateView { max_retries: Some(n), ..st }),
                _ => Ok(ArgStateView { jobs: Some(n), ..st }),
            },
        }
    }
}

/// Flag `f` given.
pub open spec fn set_flag(st: ArgStateView, f: Flag) -> Result<ArgStateView, CliErrorView> {
    match f {
        Flag::Help => Err(CliErrorView::HelpRequested),
        Flag::Version => Err(CliErrorView::VersionRequested),
        Flag::Progress => if st.progress {
            Err(CliErrorView::DuplicateFlag(f))
        } else {
            Ok(ArgStateView { progress: true, ..st })
        },
        Flag::Verbose => if st.verbose {
            Err(CliErrorView::DuplicateFlag(f))
        } else {
            Ok(ArgStateView { verbose: true, ..st })
        },
    }
}

/// The positional argument `t`, at position `at` of the command line.
pub open spec fn add_positional(st: ArgStateView, t: Seq<char>, at: nat) -> Result<
    ArgStateView,
    CliErrorView,
> {
    if st.operation is None {
        match operation_value(t) {
            Ok(op) => Ok(ArgStateView { operation: Some(op), ..st }),
            Err(e) => Err(e),
        }
    } else if st.source is None {
        Ok(ArgStateView { source: Some(t), source_index: at, ..st })
    } else if st.destination is None {
        Ok(ArgStateView { destination: Some(t), destination_index: at, ..st })
    } else {
        Err(CliErrorView::UnexpectedPositional(t))
    }
}

/// The long option `--rest`.
pub open spec fn long_option(st: ArgStateView, t: Seq<char>, rest: Seq<char>) -> Result<
    ArgStateView,
    CliErrorView,
> {
    let eq = index_of_equals(rest);
    let name = rest.take(eq);
    let value = if eq < rest.len() { Some(rest.skip(eq + 1)) } else { None };
    match value_option_named(name) {
        Some(o) => if option_given(st, o) {
            Err(CliErrorView::DuplicateOption(o))
        } else {
            match value {
                Some(v) => assign_value(st, o, v),
                None => Ok(ArgStateView { pending: Some(o), ..st }),
            }
        },
        None => match flag_named(name) {
            Some(f) => if value is Some {
                Err(CliErrorView::UnexpectedValue(f))
            } else {
                set_flag(st, f)
            },
            None => Err(CliErrorView::UnknownArgument(t)),
        },
    }
}

/// Reading argument `t`, at position `at` of the command line.
pub open spec fn arg_step(st: ArgStateView, t: Seq<char>, at: nat) -> Result<
    ArgStateView,
    CliErrorView,
> {
    let dash = t.len() >= 2 && t[0] == '-';
    match st.pending {
        Some(o) => if dash {
            Err(CliErrorView::MissingValue(o))
        } else {
            assign_value(ArgStateView { pending: None, ..st }, o, t)
        },
        None => if st.escaped {
            add_positional(st, t, at)
        } else if t == "--"@ {
            Ok(ArgStateView { escaped: true, ..st })
        } else if dash && t[1] == '-' {
            long_option(st, t, t.skip(2))
        } else if dash {
            if t == "-v"@ {
                set_flag(st, Flag::Verbose)
            } else if t == "-h"@ {
                set_flag(st, Flag::Help)
            } else if t == "-V"@ {
                set_flag(st, Flag::Version)
            } else {
                Err(CliErrorView::UnknownArgument(t))
            }
        } else {
            add_positional(st, t, at)
        },
    }
}

/// Reading every argument of `ts` in turn, the first at position `at`,
/// stopping at the first refusal.
pub open spec fn read_args(st: ArgStateView, ts: Seq<Seq<char>>, at: nat) -> Result<
    ArgStateView,
    CliErrorView,
>
    decreases ts.len(),
{
    if ts.len() == 0 {
        Ok(st)
    } else {
        match arg_step(st, ts[0], at) {
            Ok(next) => read_args(next, ts.drop_first(), at + 1),
            Err(e) => Err(e),
        }
    }
}

/// The parsed arguments once all were read, with defaults for options not given.
pub open spec fn finish_args(st: ArgStateView, default_jobs: usize) -> Result<CliView, CliErrorView> {
    match st.pending {
        Some(o) => Err(CliErrorView::MissingValue(o)),
        None => match (st.operation, st.source, st.destination) {
            (None, _, _) => Err(CliErrorView::MissingPositional(Positional::Operation)),
            (Some(_), None, _) => Err(CliErrorView::MissingPositional(Positional::Source)),
            (Some(_), Some(_), None) => Err(
                CliErrorView::MissingPositional(Positional::Destination),
            ),
            (Some(operation), Some(source), Some(destination)) => Ok(
                CliView {
                    operation,
                    source,
                    source_index: st.source_index,
                    destination,
                    destination_index: st.destination_index,
                    hash_buffer_size: match st.hash_buffer_size {
                        Some(n) => n,
                        None => DEFAULT_HASH_BUFFER_SIZE,
                    },
                    copy_buffer_size: match st.copy_buffer_size {
                        Some(n) => n,
                        None => DEFAULT_COPY_BUFFER_SIZE,
                    },
                    max_retries: st.max_retries,
                    retry_delay_ms: match st.retry_delay_ms {
                        Some(n) => n,
                        None => 0,
                    },
                    jobs: match st.jobs {
                        Some(n) => n,
                        None => default_jobs,
                    },
                    progress: st.progress,
                    verbose: st.verbose,
                },
            ),
        },
    }
}

/// The meaning of the command line `args` (program name first).
pub open spec fn parse_args(args: Seq<Seq<char>>, default_jobs: usize) -> Result<CliView, CliErrorView> {
    let ts = if args.len() == 0 { args } else { args.drop_first() };
    match read_args(initial_state(), ts, 1) {
        Ok(st) => finish_args(st, default_jobs),
        Err(e) => Err(e),
    }
}

proof fn lemma_index_of_equals(s: Seq<char>, r: int)
    requires
        0 <= r <= s.len(),
        forall|j: int| 0 <= j < r ==> s[j] != '=',
        r == s.len() || s[r] == '=',
    ensures
        index_of_equals(s) == r,
    decreases r,
{
    if r > 0 {
        lemma_index_of_equals(s.drop_first(), r - 1);
    }
}

/// Index of the first `=` in `v` (its length when there is none).
fn find_equals(v: &[char]) -> (r: usize)
    ensures
        r == index_of_equals(v@),
        r <= v@.len(),
{
    let mut i: usize = 0;
    while i < v.len()
        invariant
            i <= v@.len(),
            forall|j: int| 0 <= j < i ==> v@[j] != '=',
        decreases v@.len() - i,
    {
        if v[i] == '=' {
            proof {
                lemma_index_of_equals(v@, i as int);
            }
            return i;
        }
        i = i + 1;
    }
    proof {
        lemma_index_of_equals(v@, i as int);
    }
    i
}

fn find_value_option(name: &[char]) -> (r: Option<ValueOption>)
    ensures
        r == value_option_named(name@),
{
    if spells(name, "hash-buffer-size") {
        Some(ValueOption::HashBufferSize)
    } else if spells(name, "copy-buffer-size") {
        Some(ValueOption::CopyBufferSize)
    } else if spells(name, "max-retries") {
        Some(ValueOption::MaxRetries)
    } else if spells(name, "retry-delay-ms") {
        Some(ValueOption::RetryDelayMs)
    } else if spells(name, "jobs") {
        Some(ValueOption::Jobs)
    } else {
        None
    }
}

fn find_flag(name: &[char]) -> (r: Option<Flag>)
    ensures
        r == flag_named(name@),
{
    if spells(name, "progress") {
        Some(Flag::Progress)
    } else if spells(name, "verbose") {
        Some(Flag::Verbose)
    } else if spells(name, "help") {
        Some(Flag::Help)
    } else if spells(name, "version") {
        Some(Flag::Version)
    } else {
        None
    }
}

/// `text[from..]` as an owned string.
fn text_from(text: &str, from: usize) -> (r: String)
    requires
        from <= text@.len(),
    ensures
        r@ == text@.skip(from as int),
{
    let n = text.unicode_len();
    text.substring_char(from, n).to_owned()
}

/// The operation written `t` (whose text is `text`): `+` copies, `-` moves.
pub fn parse_operation(t: &[char], text: String) -> (r: Result<Operation, CliError>)
    requires
        text@ == t@,
    ensures
        result_view(r) == operation_value(t@),
{
    if spells(t, "+") {
        Ok(Operation::Copy)
    } else if spells(t, "-") {
        Ok(Operation::Move)
    } else {
        Err(CliError::InvalidOperation(text))
    }
}

/// The value `v` (whose text is `text`) of option `o`: a number greater than zero.
pub fn parse_positive_usize(o: ValueOption, v: &[char], text: String) -> (r: Result<usize, CliError>)
    requires
        text@ == v@,
    ensures
        result_view(r) == positive_value(o, v@),
{
    match parse_decimal(v, usize::MAX as u64) {
        None => Err(CliError::InvalidNumber { option: o, value: text }),
        Some(n) => if n == 0 {
            Err(CliError::ZeroNotAllowed(o))
        } else {
            Ok(n as usize)
        },
    }
}

impl ArgState {
    /// Nothing read yet.
    pub fn new() -> (st: ArgState)
        ensures
            st@ == initial_state(),
    {
        ArgState {
            escaped: false,
            pending: None,
            operation: None,
            source: None,
            source_index: 0,
            destination: None,
            destination_index: 0,
            hash_buffer_size: None,
            copy_buffer_size: None,
            max_retries: None,
            retry_delay_ms: None,
            jobs: None,
            progress: false,
            verbose: false,
        }
    }

    fn given(&self, o: ValueOption) -> (r: bool)
        ensures
            r == option_given(self@, o),
    {
        match o {
            ValueOption::HashBufferSize => self.hash_buffer_size.is_some(),
            ValueOption::CopyBufferSize => self.copy_buffer_size.is_some(),
            ValueOption::MaxRetries => self.max_retries.is_some(),
            ValueOption::RetryDelayMs => self.retry_delay_ms.is_some(),
            ValueOption::Jobs => self.jobs.is_some(),
        }
    }

    fn assign(self, o: ValueOption, v: &[char], text: String) -> (r: Result<ArgState, CliError>)
        requires
            text@ == v@,
        ensures
            result_view(r) == assign_value(self@, o, v@),
    {
        if o == ValueOption::RetryDelayMs {
            match parse_decimal(v, u64::MAX) {
                None => Err(CliError::InvalidNumber { option: o, value: text }),
                Some(n) => Ok(ArgState { retry_delay_ms: Some(n), ..self }),
            }
        } else {
            match parse_positive_usize(o, v, text) {
                Err(e) => Err(e),
                Ok(n) => match o {
                    ValueOption::HashBufferSize => Ok(ArgState { hash_buffer_size: Some(n), ..self }),
                    ValueOption::CopyBufferSize => Ok(ArgState { copy_buffer_size: Some(n), ..self }),
                    ValueOption::MaxRetries => Ok(ArgState { max_retries: Some(n), ..self }),
                    _ => Ok(ArgState { jobs: Some(n), ..self }),
                },
            }
        }
    }

    fn flag(self, f: Flag) -> (r: Result<ArgState, CliError>)
        ensures
            result_view(r) == set_flag(self@, f),
    {
        match f {
            Flag::Help => Err(CliError::HelpRequested),
            Flag::Version => Err(CliError::VersionRequested),
            Flag::Progress => if self.progress {
                Err(CliError::DuplicateFlag(f))
            } else {
                Ok(ArgState { progress: true, ..self })
            },
            Flag::Verbose => if self.verbose {
                Err(CliError::DuplicateFlag(f))
            } else {
                Ok(ArgState { verbose: true, ..self })
            },
        }
    }

    fn positional(self, t: &[char], text: String, at: usize) -> (r: Result<ArgState, CliError>)
        requires
            text@ == t@,
        ensures
            result_view(r) == add_positional(self@, t@, at as nat),
    {
        if self.operation.is_none() {
            match parse_operation(t, text) {
                Ok(op) => Ok(ArgState { operation: Some(op), ..self }),
                Err(e) => Err(e),
            }
        } else if self.source.is_none() {
            Ok(ArgState { source: Some(text), source_index: at, ..self })
        } else if self.destination.is_none() {
            Ok(ArgState { destination: Some(text), destination_index: at, ..self })
        } else {
            Err(CliError::UnexpectedPositional(text))
        }
    }

    fn long(self, t: &[char], text: &str) -> (r: Result<ArgState, CliError>)
        requires
            text@ == t@,
            t@.len() >= 2,
        ensures
            result_view(r) == long_option(self@, t@, t@.skip(2)),
    {
        let rest = chars_between(t, 2, t.len());
        assert(rest@ =~= t@.skip(2));
        let eq = find_equals(rest.as_slice());
        let name = chars_between(rest.as_slice(), 0, eq);
        assert(name@ =~= rest@.take(eq as int));
        let has_value = eq < rest.len();
        match find_value_option(name.as_slice()) {
            Some(o) => if self.given(o) {
                Err(CliError::DuplicateOption(o))
            } else if has_value {
                let value = chars_between(rest.as_slice(), eq + 1, rest.len());
                assert(value@ =~= rest@.skip(eq + 1));
                let value_text = text_from(text, eq + 3);
                assert(value_text@ =~= value@);
                self.assign(o, value.as_slice(), value_text)
            } else {
                Ok(ArgState { pending: Some(o), ..self })
            },
            None => match find_flag(name.as_slice()) {
                Some(f) => if has_value {
                    Err(CliError::UnexpectedValue(f))
                } else {
                    self.flag(f)
                },
                None => Err(CliError::UnknownArgument(text.to_owned())),
            },
        }
    }

    /// Read the argument `text`, at position `at` of the command line.
    pub fn step(self, at: usize, text: &str) -> (r: Result<ArgState, CliError>)
        ensures
            result_view(r) == arg_step(self@, text@, at as nat),
    {
        let t = chars_of(text);
        let dash = t.len() >= 2 && t[0] == '-';
        match self.pending {
            Some(o) => if dash {
                Err(CliError::MissingValue(o))
            } else {
                ArgState { pending: None, ..self }.assign(o, t.as_slice(), text.to_owned())
            },
            None => if self.escaped {
                self.positional(t.as_slice(), text.to_owned(), at)
            } else if spells(t.as_slice(), "--") {
                Ok(ArgState { escaped: true, ..self })
            } else if dash && t[1] == '-' {
                self.long(t.as_slice(), text)
            } else if dash {
                if spells(t.as_slice(), "-v") {
                    self.flag(Flag::Verbose)
                } else if spells(t.as_slice(), "-h") {
                    self.flag(Flag::Help)
                } else if spells(t.as_slice(), "-V") {
                    self.flag(Flag::Version)
                } else {
                    Err(CliError::UnknownArgument(text.to_owned()))
                }
            } else {
                self.positional(t.as_slice(), text.to_owned(), at)
            },
        }
    }

    /// The parsed arguments, with defaults for the options not given
    /// (`default_jobs` workers).
    pub fn finish(self, default_jobs: usize) -> (r: Result<Cli, CliError>)
        ensures
            result_view(r) == finish_args(self@, default_jobs),
    {
        if let Some(o) = self.pending {
            return Err(CliError::MissingValue(o));
        }
        match (self.operation, self.source, self.destination) {
            (None, _, _) => Err(CliError::MissingPositional(Positional::Operation)),
            (Some(_), None, _) => Err(CliError::MissingPositional(Positional::Source)),
            (Some(_), Some(_), None) => Err(CliError::MissingPositional(Positional::Destination)),
            (Some(operation), Some(source), Some(destination)) => Ok(
                Cli {
                    operation,
                    source,
                    source_index: self.source_index,
                    destination,
                    destination_index: self.destination_index,
                    hash_buffer_size: match self.hash_buffer_size {
                        Some(n) => n,
                        None => DEFAULT_HASH_BUFFER_SIZE,
                    },
                    copy_buffer_size: match self.copy_buffer_size {
                        Some(n) => n,
                        None => DEFAULT_COPY_BUFFER_SIZE,
                    },
                    max_retries: self.max_retries,
                    retry_delay_ms: match self.retry_delay_ms {
                        Some(n) => n,
                        None => 0,
                    },
                    jobs: match self.jobs {
                        Some(n) => n,
                        None => default_jobs,
                    },
                    progress: self.progress,
                    verbose: self.verbose,
                },
            ),
        }
    }
}

/// The view of every argument.
pub open spec fn args_view(args: Seq<&str>) -> Seq<Seq<char>> {
    args.map_values(|a: &str| a@)
}

impl Cli {
    /// Parse the command line `args` (program name first); `default_jobs` is
    /// the worker count used when `--jobs` is not given.
    pub fn try_parse_from(args: &[&str], default_jobs: usize) -> (r: Result<Cli, CliError>)
        ensures
            result_view(r) == parse_args(args_view(args@), default_jobs),
    {
        let ghost all = args_view(args@);
        let ghost ts = if all.len() == 0 { all } else { all.drop_first() };
        let mut st = ArgState::new();
        let mut i: usize = if args.len() == 0 { 0 } else { 1 };
        assert(ts =~= all.skip(i as int));
        while i < args.len()
            invariant
                1 <= i <= args@.len() || (i == 0 && args@.len() == 0),
                all == args_view(args@),
                read_args(initial_state(), ts, 1) == read_args(st@, all.skip(i as int), i as nat),
                ts == (if all.len() == 0 { all } else { all.drop_first() }),
            decreases args@.len() - i,
        {
            let ghost rest = all.skip(i as int);
            assert(rest[0] == args@[i as int]@);
            assert(rest.drop_first() =~= all.skip(i + 1));
            match st.step(i, args[i]) {
                Ok(next) => {
                    st = next;
                },
                Err(e) => {
                    return Err(e);
                },
            }
            i = i + 1;
        }
        assert(all.skip(i as int).len() == 0);
        st.finish(default_jobs)
    }

    /// Convert the parsed options into runtime execution settings.
    pub fn execution_settings(&self) -> (s: ExecutionSettings)
        ensures
            s.hash_buffer_size == self.hash_buffer_size,
            s.copy_buffer_size == self.copy_buffer_size,
            s.max_retries == self.max_retries,
            s.retry_delay_ms == self.retry_delay_ms,
            s.verbose == self.verbose,
            s.progress == self.progress,
            s.jobs == self.jobs,
    {
        ExecutionSettings {
            hash_buffer_size: self.hash_buffer_size,
            copy_buffer_size: self.copy_buffer_size,
            max_retries: self.max_retries,
            retry_delay_ms: self.retry_delay_ms,
            verbose: self.verbose,
            progress: self.progress,
            jobs: self.jobs,
        }
    }
}

/// Whether `t` reads as an option rather than a value (two or more
/// characters, starting with `-`).
pub open spec fn looks_like_option(t: Seq<char>) -> bool {
    t.len() >= 2 && t[0] == '-'
}

/// `scam <+|-> SOURCE DESTINATION` with nothing else: the operation the marker
/// names, the two paths as given (the second and third arguments after the
/// program name), and every option at its default.
pub proof fn law_plain_command_line(
    program: Seq<char>,
    marker: Seq<char>,
    source: Seq<char>,
    destination: Seq<char>,
    default_jobs: usize,
)
    requires
        marker == "+"@ || marker == "-"@,
        !looks_like_option(source),
        !looks_like_option(destination),
    ensures
        parse_args(seq![program, marker, source, destination], default_jobs) == Ok::<
            CliView,
            CliErrorView,
        >(
            CliView {
                operation: if marker == "+"@ { Operation::Copy } else { Operation::Move },
                source,
                source_index: 2,
                destination,
                destination_index: 3,
                hash_buffer_size: DEFAULT_HASH_BUFFER_SIZE,
                copy_buffer_size: DEFAULT_COPY_BUFFER_SIZE,
                max_retries: None,
                retry_delay_ms: 0,
                jobs: default_jobs,
                progress: false,
                verbose: false,
            },
        ),
{
    reveal_strlit("+");
    reveal_strlit("-");
    reveal_strlit("--");
    let args = seq![program, marker, source, destination];
    let ts = args.drop_first();
    assert(ts =~= seq![marker, source, destination]);
    assert(!looks_like_option(marker));
    assert(marker != "--"@);
    assert(source != "--"@);
    assert(destination != "--"@);
    let s0 = initial_state();
    let s1 = ArgStateView {
        operation: Some(if marker == "+"@ { Operation::Copy } else { Operation::Move }),
        ..s0
    };
    let s2 = ArgStateView { source: Some(source), source_index: 2, ..s1 };
    let s3 = ArgStateView { destination: Some(destination), destination_index: 3, ..s2 };
    assert(arg_step(s0, marker, 1) == Ok::<ArgStateView, CliErrorView>(s1));
    assert(arg_step(s1, source, 2) == Ok::<ArgStateView, CliErrorView>(s2));
    assert(arg_step(s2, destination, 3) == Ok::<ArgStateView, CliErrorView>(s3));
    assert(ts.drop_first() =~= seq![source, destination]);
    assert(ts.drop_first().drop_first() =~= seq![destination]);
    assert(ts.drop_first().drop_first().drop_first() =~= Seq::<Seq<char>>::empty());
    assert(read_args(s3, Seq::<Seq<char>>::empty(), 4) == Ok::<ArgStateView, CliErrorView>(s3));
    assert(read_args(s2, seq![destination], 3) == Ok::<ArgStateView, CliErrorView>(s3));
    assert(read_args(s1, seq![source, destination], 2) == Ok::<ArgStateView, CliErrorView>(s3));
    assert(read_args(s0, ts, 1) == Ok::<ArgStateView, CliErrorView>(s3));
}

/// Whether the source and destination read so far are arguments of `args`
/// before position `at`, after the program name, at the positions recorded.
pub open spec fn positions_read(st: ArgStateView, args: Seq<Seq<char>>, at: nat) -> bool {
    &&& st.source matches Some(s) ==> 1 <= st.source_index < at && st.source_index < args.len()
        && args[st.source_index as int] == s
    &&& st.destination matches Some(d) ==> 1 <= st.destination_index < at
        && st.destination_index < args.len() && args[st.destination_index as int] == d
}

proof fn lemma_read_args_positions(st: ArgStateView, args: Seq<Seq<char>>, at: nat)
    requires
        1 <= at <= args.len(),
        positions_read(st, args, at),
        read_args(st, args.skip(at as int), at) is Ok,
    ensures
        positions_read(read_args(st, args.skip(at as int), at)->Ok_0, args, args.len()),
    decreases args.len() - at,
{
    let ts = args.skip(at as int);
    if ts.len() > 0 {
        let next = arg_step(st, ts[0], at)->Ok_0;
        assert(ts[0] == args[at as int]);
        assert(positions_read(next, args, at + 1));
        assert(ts.drop_first() =~= args.skip((at + 1) as int));
        lemma_read_args_positions(next, args, (at + 1) as nat);
    }
}

/// The source and destination of a parsed command line are the arguments at
/// the positions it reports, after the program name.
pub proof fn law_paths_come_from_their_arguments(args: Seq<Seq<char>>, default_jobs: usize)
    requires
        parse_args(args, default_jobs) is Ok,
    ensures
        ({
            let c = parse_args(args, default_jobs)->Ok_0;
            &&& 1 <= c.source_index < args.len()
            &&& args[c.source_index as int] == c.source
            &&& 1 <= c.destination_index < args.len()
            &&& args[c.destination_index as int] == c.destination
        }),
{
    if args.len() == 0 {
        assert(read_args(initial_state(), args, 1) == Ok::<ArgStateView, CliErrorView>(
            initial_state(),
        ));
    } else {
        assert(args.drop_first() =~= args.skip(1));
        lemma_read_args_positions(initial_state(), args, 1);
    }
}

/// Giving one option never changes whether another option counts as given,
/// and the option given counts as given afterwards.
pub proof fn law_options_are_independent(
    st: ArgStateView,
    given: ValueOption,
    other: ValueOption,
    v: Seq<char>,
)
    requires
        given != other,
        assign_value(st, given, v) is Ok,
    ensures
        option_given(assign_value(st, given, v)->Ok_0, other) == option_given(st, other),
        option_given(assign_value(st, given, v)->Ok_0, given),
{
}

/// `--retry-delay-ms` takes any decimal number up to `u64::MAX`, zero included
/// (no pause), unlike the options that must be positive.
pub proof fn law_retry_delay_accepts_zero(st: ArgStateView, v: Seq<char>)
    requires
        v.len() > 0,
        all_digits(v),
        digits_value(v) <= u64::MAX,
    ensures
        assign_value(st, ValueOption::RetryDelayMs, v) == Ok::<ArgStateView, CliErrorView>(
            ArgStateView { retry_delay_ms: Some(digits_value(v) as u64), ..st },
        ),
{
    assert(unsigned_digits(v) == v) by {
        assert(is_digit(v[0]));
    }
}

/// Reading the long option `t`, spelled `--name` with `name` the option `o`'s
/// name, and then its value `v`, written in decimal digits.
proof fn lemma_option_with_value(
    st: ArgStateView,
    t: Seq<char>,
    name: Seq<char>,
    o: ValueOption,
    v: Seq<char>,
    at: nat,
)
    requires
        t == "--"@ + name,
        name.len() > 0,
        value_option_named(name) == Some(o),
        forall|i: int| 0 <= i < name.len() ==> name[i] != '=',
        st.pending is None,
        !st.escaped,
        !option_given(st, o),
        v.len() > 0,
        all_digits(v),
    ensures
        arg_step(st, t, at) == Ok::<ArgStateView, CliErrorView>(
            ArgStateView { pending: Some(o), ..st },
        ),
        arg_step(ArgStateView { pending: Some(o), ..st }, v, (at + 1) as nat) == assign_value(
            st,
            o,
            v,
        ),
{
    reveal_strlit("--");
    assert(t.skip(2) =~= name);
    assert(t != "--"@) by {
        assert(t.len() != 2);
    }
    lemma_index_of_equals(name, name.len() as int);
    assert(name.take(name.len() as int) =~= name);
    assert(is_digit(v[0]));
    assert(ArgStateView { pending: None, ..ArgStateView { pending: Some(o), ..st } } == st);
}

/// The example of the documentation, `scam + SOURCE DESTINATION
/// --hash-buffer-size A --copy-buffer-size B --retry-delay-ms C`, for every
/// decimal A and B from 1 to `usize::MAX` and C from 0 to `u64::MAX`: every
/// option is taken, each into its own setting.
pub proof fn law_independent_options_are_all_taken(
    program: Seq<char>,
    source: Seq<char>,
    destination: Seq<char>,
    a: Seq<char>,
    b: Seq<char>,
    c: Seq<char>,
    default_jobs: usize,
)
    requires
        !looks_like_option(source),
        !looks_like_option(destination),
        a.len() > 0 && all_digits(a) && 1 <= digits_value(a) <= usize::MAX,
        b.len() > 0 && all_digits(b) && 1 <= digits_value(b) <= usize::MAX,
        c.len() > 0 && all_digits(c) && digits_value(c) <= u64::MAX,
    ensures
        parse_args(
            seq![
                program,
                "+"@,
                source,
                destination,
                "--hash-buffer-size"@,
                a,
                "--copy-buffer-size"@,
                b,
                "--retry-delay-ms"@,
                c,
            ],
            default_jobs,
        ) == Ok::<CliView, CliErrorView>(
            CliView {
                operation: Operation::Copy,
                source,
                source_index: 2,
                destination,
                destination_index: 3,
                hash_buffer_size: digits_value(a) as usize,
                copy_buffer_size: digits_value(b) as usize,
                max_retries: None,
                retry_delay_ms: digits_value(c) as u64,
                jobs: default_jobs,
                progress: false,
                verbose: false,
            },
        ),
{
    reveal_strlit("+");
    reveal_strlit("--");
    reveal_strlit("--hash-buffer-size");
    reveal_strlit("--copy-buffer-size");
    reveal_strlit("--retry-delay-ms");
    reveal_strlit("hash-buffer-size");
    reveal_strlit("copy-buffer-size");
    reveal_strlit("max-retries");
    reveal_strlit("retry-delay-ms");
    reveal_strlit("jobs");
    let hash_name = "hash-buffer-size"@;
    let copy_name = "copy-buffer-size"@;
    let delay_name = "retry-delay-ms"@;
    assert("--hash-buffer-size"@ =~= "--"@ + hash_name);
    assert("--copy-buffer-size"@ =~= "--"@ + copy_name);
    assert("--retry-delay-ms"@ =~= "--"@ + delay_name);
    assert(value_option_named(hash_name) == Some(ValueOption::HashBufferSize));
    assert(value_option_named(copy_name) == Some(ValueOption::CopyBufferSize)) by {
        assert(copy_name[0] != hash_name[0]);
    }
    assert(value_option_named(delay_name) == Some(ValueOption::RetryDelayMs)) by {
        assert(delay_name[0] != hash_name[0]);
        assert(delay_name[0] != copy_name[0]);
        assert(delay_name[0] != "max-retries"@[0]);
    }
    assert(unsigned_digits(a) == a) by { assert(is_digit(a[0])); }
    assert(unsigned_digits(b) == b) by { assert(is_digit(b[0])); }
    let args = seq![
        program,
        "+"@,
        source,
        destination,
        "--hash-buffer-size"@,
        a,
        "--copy-buffer-size"@,
        b,
        "--retry-delay-ms"@,
        c,
    ];
    assert(source != "--"@);
    assert(destination != "--"@);
    let s0 = initial_state();
    let s1 = ArgStateView { operation: Some(Operation::Copy), ..s0 };
    let s2 = ArgStateView { source: Some(source), source_index: 2, ..s1 };
    let s3 = ArgStateView { destination: Some(destination), destination_index: 3, ..s2 };
    let s4 = ArgStateView { pending: Some(ValueOption::HashBufferSize), ..s3 };
    let s5 = ArgStateView { hash_buffer_size: Some(digits_value(a) as usize), ..s3 };
    let s6 = ArgStateView { pending: Some(ValueOption::CopyBufferSize), ..s5 };
    let s7 = ArgStateView { copy_buffer_size: Some(digits_value(b) as usize), ..s5 };
    let s8 = ArgStateView { pending: Some(ValueOption::RetryDelayMs), ..s7 };
    let s9 = ArgStateView { retry_delay_ms: Some(digits_value(c) as u64), ..s7 };
    assert(arg_step(s0, "+"@, 1) == Ok::<ArgStateView, CliErrorView>(s1));
    assert(arg_step(s1, source, 2) == Ok::<ArgStateView, CliErrorView>(s2));
    assert(arg_step(s2, destination, 3) == Ok::<ArgStateView, CliErrorView>(s3));
    lemma_option_with_value(s3, "--hash-buffer-size"@, hash_name, ValueOption::HashBufferSize, a, 4);
    assert(assign_value(s3, ValueOption::HashBufferSize, a) == Ok::<ArgStateView, CliErrorView>(s5));
    lemma_option_with_value(s5, "--copy-buffer-size"@, copy_name, ValueOption::CopyBufferSize, b, 6);
    assert(assign_value(s5, ValueOption::CopyBufferSize, b) == Ok::<ArgStateView, CliErrorView>(s7));
    lemma_option_with_value(s7, "--retry-delay-ms"@, delay_name, ValueOption::RetryDelayMs, c, 8);
    law_retry_delay_accepts_zero(s7, c);
    let ts = args.drop_first();
    assert(ts.skip(9) =~= Seq::<Seq<char>>::empty());
    assert(ts.skip(8) =~= seq![c]);
    assert(ts.skip(7) =~= seq!["--retry-delay-ms"@, c]);
    assert(ts.skip(6) =~= seq![b, "--retry-delay-ms"@, c]);
    assert(ts.skip(5) =~= seq!["--copy-buffer-size"@, b, "--retry-delay-ms"@, c]);
    assert(ts.skip(4) =~= seq![a, "--copy-buffer-size"@, b, "--retry-delay-ms"@, c]);
    assert(ts.skip(3) =~= seq!["--hash-buffer-size"@, a, "--copy-buffer-size"@, b, "--retry-delay-ms"@, c]);
    assert(ts.skip(2) =~= seq![destination, "--hash-buffer-size"@, a, "--copy-buffer-size"@, b, "--retry-delay-ms"@, c]);
    assert(ts.skip(1) =~= seq![source, destination, "--hash-buffer-size"@, a, "--copy-buffer-size"@, b, "--retry-delay-ms"@, c]);
    assert(ts.skip(0) =~= ts);
    assert(read_args(s9, ts.skip(9), 10) == Ok::<ArgStateView, CliErrorView>(s9));
    assert(ts.skip(8).drop_first() =~= ts.skip(9));
    assert(read_args(s8, ts.skip(8), 9) == Ok::<ArgStateView, CliErrorView>(s9));
    assert(ts.skip(7).drop_first() =~= ts.skip(8));
    assert(read_args(s7, ts.skip(7), 8) == Ok::<ArgStateView, CliErrorView>(s9));
    assert(ts.skip(6).drop_first() =~= ts.skip(7));
    assert(read_args(s6, ts.skip(6), 7) == Ok::<ArgStateView, CliErrorView>(s9));
    assert(ts.skip(5).drop_first() =~= ts.skip(6));
    assert(read_args(s5, ts.skip(5), 6) == Ok::<ArgStateView, CliErrorView>(s9));
    assert(ts.skip(4).drop_first() =~= ts.skip(5));
    assert(read_args(s4, ts.skip(4), 5) == Ok::<ArgStateView, CliErrorView>(s9));
    assert(ts.skip(3).drop_first() =~= ts.skip(4));
    assert(read_args(s3, ts.skip(3), 4) == Ok::<ArgStateView, CliErrorView>(s9));
    assert(ts.skip(2).drop_first() =~= ts.skip(3));
    assert(read_args(s2, ts.skip(2), 3) == Ok::<ArgStateView, CliErrorView>(s9));
    assert(ts.skip(1).drop_first() =~= ts.skip(2));
    assert(read_args(s1, ts.skip(1), 2) == Ok::<ArgStateView, CliErrorView>(s9));
    assert(ts.drop_first() =~= ts.skip(1));
    assert(read_args(s0, ts, 1) == Ok::<ArgStateView, CliErrorView>(s9));
}

} // verus!
