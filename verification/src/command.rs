//! Shell-free tmux command construction and results.

use vstd::prelude::*;
use vstd::string::StringSliceAdditionalSpecFns;
use crate::error::{Error, ErrorView};
use vstd::utf8::encode_utf8;
use crate::numeric::{decimal, decimal_chars, signed_decimal, signed_decimal_chars};
use crate::strmap::{pairs_map, sorted_pairs, StrMap};
use crate::text::{
    append_str, lossy_string, owned, string_from_chars, utf8_lossy, TmuxText, split_nonempty, nonempty_lines, strip_cr,
    lemma_map_push, lemma_take_push,
};

verus! {

/// A redacted, human-readable command description.
#[derive(Debug, Hash)]
pub struct CommandSummary(String);

impl View for CommandSummary {
    type V = Seq<char>;

    closed spec fn view(&self) -> Seq<char> {
        self.0@
    }
}

impl PartialEq for CommandSummary {
    fn eq(&self, other: &Self) -> (r: bool) {
        self.0 == other.0
    }
}

impl vstd::std_specs::cmp::PartialEqSpecImpl for CommandSummary {
    open spec fn obeys_eq_spec() -> bool {
        true
    }

    open spec fn eq_spec(&self, other: &Self) -> bool {
        self@ == other@
    }
}

impl Eq for CommandSummary {}

impl Clone for CommandSummary {
    fn clone(&self) -> (r: Self)
        ensures
            r@ == self@,
    {
        CommandSummary(self.0.clone())
    }
}

impl CommandSummary {
    /// Returns the redacted command text.
    pub fn as_str(&self) -> (r: &str)
        ensures
            r@ == self@,
    {
        self.0.as_str()
    }

    /// The redacted command text as an owned string, as it is displayed.
    pub fn to_string(&self) -> (r: String)
        ensures
            r@ == self@,
    {
        self.0.clone()
    }

    /// Wraps an already redacted description.
    pub fn from_string(text: String) -> (r: Self)
        ensures
            r@ == text@,
    {
        CommandSummary(text)
    }
}

/// One command argument and whether diagnostics must hide it.
#[derive(Debug)]
pub struct Argument {
    value: TmuxText,
    sensitive: bool,
}

impl View for Argument {
    type V = (Seq<u8>, bool);

    closed spec fn view(&self) -> (Seq<u8>, bool) {
        (self.value@, self.sensitive)
    }
}

impl Clone for Argument {
    fn clone(&self) -> (r: Self)
        ensures
            r@ == self@,
    {
        Argument { value: self.value.clone(), sensitive: self.sensitive }
    }
}

impl Argument {
    /// The argument's bytes.
    pub fn value(&self) -> (r: &TmuxText)
        ensures
            r@ == self@.0,
    {
        &self.value
    }

    /// Whether diagnostics hide this argument.
    pub fn is_sensitive(&self) -> (r: bool)
        ensures
            r == self@.1,
    {
        self.sensitive
    }
}

/// The mathematical content of a [`Command`].
pub struct CommandView {
    pub subcommand: Seq<u8>,
    pub arguments: Seq<(Seq<u8>, bool)>,
    pub input: Option<Seq<u8>>,
    pub sensitive_input: bool,
}

/// A visible argument holding the UTF-8 bytes of a literal.
pub open spec fn plain(s: &str) -> (Seq<u8>, bool) {
    (s.spec_bytes(), false)
}

/// A visible argument holding raw bytes.
pub open spec fn plain_bytes(b: Seq<u8>) -> (Seq<u8>, bool) {
    (b, false)
}

/// A hidden argument holding raw bytes.
pub open spec fn hidden_bytes(b: Seq<u8>) -> (Seq<u8>, bool) {
    (b, true)
}

/// A flag argument present only when `enabled`.
pub open spec fn flag_if(enabled: bool, flag: &str) -> Seq<(Seq<u8>, bool)> {
    if enabled {
        seq![plain(flag)]
    } else {
        seq![]
    }
}

/// A flag followed by a value, present only when the value is.
pub open spec fn option_pair(flag: &str, value: Option<Seq<u8>>) -> Seq<(Seq<u8>, bool)> {
    match value {
        Some(v) => seq![plain(flag), plain_bytes(v)],
        None => seq![],
    }
}

/// A tmux subcommand and its arguments.
///
/// The tmux executable, socket, config, and color flags belong to the server
/// configuration, not to this value.
#[derive(Debug)]
pub struct Command {
    subcommand: TmuxText,
    arguments: Vec<Argument>,
    input: Option<TmuxText>,
    sensitive_input: bool,
}

/// The view of a command with no arguments and no input.
pub open spec fn empty_command(subcommand: &str) -> CommandView {
    CommandView {
        subcommand: subcommand.spec_bytes(),
        arguments: seq![],
        input: None,
        sensitive_input: false,
    }
}

/// A command view with further arguments appended.
pub open spec fn with_args(c: CommandView, more: Seq<(Seq<u8>, bool)>) -> CommandView {
    CommandView { arguments: c.arguments + more, ..c }
}

/// A command view whose arguments are exactly `args`.
pub open spec fn command_with(subcommand: &str, args: Seq<(Seq<u8>, bool)>) -> CommandView {
    CommandView { subcommand: subcommand.spec_bytes(), arguments: args, input: None, sensitive_input: false }
}

impl View for Command {
    type V = CommandView;

    closed spec fn view(&self) -> CommandView {
        CommandView {
            subcommand: self.subcommand@,
            arguments: self.arguments@.map_values(|a: Argument| a@),
            input: match self.input {
                Some(t) => Some(t@),
                None => None,
            },
            sensitive_input: self.sensitive_input,
        }
    }
}

impl PartialEq for Command {
    fn eq(&self, other: &Self) -> (r: bool) {
        let ghost va = self.arguments@.map_values(|a: Argument| a@);
        let ghost vb = other.arguments@.map_values(|a: Argument| a@);
        if !(self.subcommand == other.subcommand) || !same_text_opt(&self.input, &other.input)
            || self.sensitive_input != other.sensitive_input || self.arguments.len() != other.arguments.len()
        {
            assert(va.len() != vb.len() || self@.subcommand != other@.subcommand || self@.input != other@.input
                || self@.sensitive_input != other@.sensitive_input);
            return false;
        }
        let mut k: usize = 0;
        while k < self.arguments.len()
            invariant
                k <= self.arguments@.len(),
                self.arguments@.len() == other.arguments@.len(),
                va == self.arguments@.map_values(|a: Argument| a@),
                vb == other.arguments@.map_values(|a: Argument| a@),
                forall|j: int| 0 <= j < k ==> va[j] == vb[j],
            decreases self.arguments.len() - k,
        {
            let a = &self.arguments[k];
            let b = &other.arguments[k];
            if !(a.value == b.value) || a.sensitive != b.sensitive {
                assert(va[k as int] != vb[k as int]);
                return false;
            }
            k = k + 1;
        }
        assert(va =~= vb);
        true
    }
}

impl vstd::std_specs::cmp::PartialEqSpecImpl for Command {
    open spec fn obeys_eq_spec() -> bool {
        true
    }

    open spec fn eq_spec(&self, other: &Self) -> bool {
        self@ == other@
    }
}

impl Eq for Command {}

impl Clone for Command {
    fn clone(&self) -> (r: Self)
        ensures
            r@ == self@,
    {
        let mut arguments: Vec<Argument> = Vec::new();
        let mut k: usize = 0;
        while k < self.arguments.len()
            invariant
                k <= self.arguments@.len(),
                arguments@.map_values(|a: Argument| a@) == self.arguments@.take(k as int).map_values(|a: Argument| a@),
            decreases self.arguments.len() - k,
        {
            let a = self.arguments[k].clone();
            let ghost before = arguments@;
            arguments.push(a);
            proof {
                lemma_map_push(before, a, |a: Argument| a@);
                lemma_take_push(self.arguments@, k as int);
                lemma_map_push(self.arguments@.take(k as int), self.arguments@[k as int], |a: Argument| a@);
            }
            k = k + 1;
        }
        assert(self.arguments@.take(self.arguments@.len() as int) == self.arguments@);
        let input = match &self.input {
            Some(t) => Some(t.clone()),
            None => None,
        };
        Command {
            subcommand: self.subcommand.clone(),
            arguments,
            input,
            sensitive_input: self.sensitive_input,
        }
    }
}

impl Command {
    /// Creates a command for a tmux subcommand such as `list-sessions`.
    pub fn new(subcommand: &str) -> (r: Self)
        ensures
            r@ == empty_command(subcommand),
    {
        let r = Command {
            subcommand: TmuxText::from_str(subcommand),
            arguments: Vec::new(),
            input: None,
            sensitive_input: false,
        };
        assert(r@.arguments =~= Seq::<(Seq<u8>, bool)>::empty());
        r
    }

    /// Creates a command whose subcommand is given as raw bytes.
    pub fn from_text(subcommand: TmuxText) -> (r: Self)
        ensures
            r@ == (CommandView { subcommand: subcommand@, arguments: seq![], input: None, sensitive_input: false }),
    {
        let r = Command { subcommand, arguments: Vec::new(), input: None, sensitive_input: false };
        assert(r@.arguments =~= Seq::<(Seq<u8>, bool)>::empty());
        r
    }

    /// Appends one argument.
    fn push_argument(self, value: TmuxText, sensitive: bool) -> (r: Self)
        ensures
            r@ == with_args(self@, seq![(value@, sensitive)]),
    {
        let mut c = self;
        let ghost before = c.arguments@;
        let a = Argument { value, sensitive };
        c.arguments.push(a);
        proof {
            lemma_map_push(before, a, |x: Argument| x@);
            assert(before.map_values(|x: Argument| x@).push(a@) =~= before.map_values(|x: Argument| x@) + seq![(value@, sensitive)]);
        }
        c
    }

    /// Adds an argument given as raw bytes, hidden from diagnostics when `sensitive`.
    pub fn argument(self, value: TmuxText, sensitive: bool) -> (r: Self)
        ensures
            r@ == with_args(self@, seq![(value@, sensitive)]),
    {
        self.push_argument(value, sensitive)
    }

    /// Adds a visible command argument.
    pub fn arg(self, argument: &str) -> (r: Self)
        ensures
            r@ == with_args(self@, seq![plain(argument)]),
    {
        self.push_argument(TmuxText::from_str(argument), false)
    }

    /// Adds a visible argument given as raw bytes.
    pub fn arg_text(self, argument: TmuxText) -> (r: Self)
        ensures
            r@ == with_args(self@, seq![plain_bytes(argument@)]),
    {
        self.push_argument(argument, false)
    }

    /// Adds several visible arguments given as raw bytes.
    pub fn args(self, arguments: &Vec<TmuxText>) -> (r: Self)
        ensures
            r@ == with_args(self@, arguments@.map_values(|t: TmuxText| plain_bytes(t@))),
    {
        let mut c = self;
        let ghost start = c@;
        let mut k: usize = 0;
        while k < arguments.len()
            invariant
                k <= arguments@.len(),
                c@ == with_args(start, arguments@.take(k as int).map_values(|t: TmuxText| plain_bytes(t@))),
            decreases arguments.len() - k,
        {
            let ghost before = c@;
            let t = arguments[k].clone();
            assert(t@ == arguments@[k as int]@);
            c = c.push_argument(t, false);
            proof {
                lemma_take_push(arguments@, k as int);
                lemma_map_push(arguments@.take(k as int), arguments@[k as int], |t: TmuxText| plain_bytes(t@));
                let m = arguments@.take(k as int).map_values(|t: TmuxText| plain_bytes(t@));
                assert(start.arguments + m.push(plain_bytes(arguments@[k as int]@)) =~= (start.arguments + m) + seq![plain_bytes(arguments@[k as int]@)]);
                assert(c@ == with_args(start, m.push(plain_bytes(arguments@[k as int]@))));
            }
            k = k + 1;
        }
        assert(arguments@.take(arguments@.len() as int) == arguments@);
        c
    }

    /// Adds an argument whose value is omitted from diagnostics.
    pub fn sensitive_arg(self, argument: &str) -> (r: Self)
        ensures
            r@ == with_args(self@, seq![(argument.spec_bytes(), true)]),
    {
        self.push_argument(TmuxText::from_str(argument), true)
    }

    /// Adds a raw-byte argument whose value is omitted from diagnostics.
    pub fn sensitive_arg_text(self, argument: TmuxText) -> (r: Self)
        ensures
            r@ == with_args(self@, seq![hidden_bytes(argument@)]),
    {
        self.push_argument(argument, true)
    }

    /// Adds a conventional `-t <target>` pair.
    pub fn target(self, target: TmuxText) -> (r: Self)
        ensures
            r@ == with_args(self@, seq![plain("-t"), plain_bytes(target@)]),
    {
        let ghost start = self@;
        let c = self.arg("-t");
        let r = c.arg_text(target);
        assert(start.arguments + seq![plain("-t")] + seq![plain_bytes(target@)] =~= start.arguments + seq![plain("-t"), plain_bytes(target@)]);
        r
    }

    /// Supplies byte-preserving standard input to the tmux process.
    pub fn input(self, input: &str) -> (r: Self)
        ensures
            r@ == (CommandView { input: Some(input.spec_bytes()), sensitive_input: false, ..self@ }),
    {
        self.input_text(TmuxText::from_str(input))
    }

    /// Supplies byte-preserving standard input given as raw bytes.
    pub fn input_text(self, input: TmuxText) -> (r: Self)
        ensures
            r@ == (CommandView { input: Some(input@), sensitive_input: false, ..self@ }),
    {
        let mut c = self;
        c.input = Some(input);
        c.sensitive_input = false;
        c
    }

    /// Supplies standard input while marking its content sensitive.
    pub fn sensitive_input(self, input: &str) -> (r: Self)
        ensures
            r@ == (CommandView { input: Some(input.spec_bytes()), sensitive_input: true, ..self@ }),
    {
        self.sensitive_input_text(TmuxText::from_str(input))
    }

    /// Supplies sensitive standard input given as raw bytes.
    pub fn sensitive_input_text(self, input: TmuxText) -> (r: Self)
        ensures
            r@ == (CommandView { input: Some(input@), sensitive_input: true, ..self@ }),
    {
        let mut c = self;
        c.input = Some(input);
        c.sensitive_input = true;
        c
    }

    /// Returns the tmux subcommand.
    pub fn subcommand(&self) -> (r: &TmuxText)
        ensures
            r@ == self@.subcommand,
    {
        &self.subcommand
    }

    /// Returns the arguments in execution order.
    pub fn arguments(&self) -> (r: Vec<TmuxText>)
        ensures
            r@.map_values(|t: TmuxText| t@) == self@.arguments.map_values(|a: (Seq<u8>, bool)| a.0),
    {
        let mut r: Vec<TmuxText> = Vec::new();
        let mut k: usize = 0;
        while k < self.arguments.len()
            invariant
                k <= self.arguments@.len(),
                r@.map_values(|t: TmuxText| t@) == self.arguments@.take(k as int).map_values(|a: Argument| a@.0),
            decreases self.arguments.len() - k,
        {
            let t = self.arguments[k].value.clone();
            let ghost before = r@;
            r.push(t);
            proof {
                lemma_map_push(before, t, |t: TmuxText| t@);
                lemma_take_push(self.arguments@, k as int);
                lemma_map_push(self.arguments@.take(k as int), self.arguments@[k as int], |a: Argument| a@.0);
            }
            k = k + 1;
        }
        assert(self.arguments@.take(self.arguments@.len() as int) == self.arguments@);
        assert(self@.arguments.map_values(|a: (Seq<u8>, bool)| a.0) =~= self.arguments@.map_values(|a: Argument| a@.0));
        r
    }

    /// Returns the standard input, if any.
    pub fn standard_input(&self) -> (r: Option<&TmuxText>)
        ensures
            match r {
                Some(t) => self@.input == Some(t@),
                None => self@.input is None,
            },
    {
        match &self.input {
            Some(t) => Some(t),
            None => None,
        }
    }

    /// Creates a redacted diagnostic description.
    pub fn summary(&self) -> (r: CommandSummary)
        ensures
            r@ == summary_text(self@),
    {
        let mut text = lossy_string(self.subcommand.as_bytes());
        let mut k: usize = 0;
        while k < self.arguments.len()
            invariant
                k <= self.arguments@.len(),
                text@ == utf8_lossy(self@.subcommand) + joined_parts(self@.arguments.take(k as int)),
            decreases self.arguments.len() - k,
        {
            let a = &self.arguments[k];
            append_str(&mut text, " ");
            if a.sensitive {
                append_str(&mut text, "<redacted>");
            } else {
                let part = lossy_string(a.value.as_bytes());
                append_str(&mut text, part.as_str());
            }
            proof {
                let prefix = self@.arguments.take(k + 1);
                assert(prefix.drop_last() =~= self@.arguments.take(k as int));
                assert(prefix.last() == a@);
            }
            k = k + 1;
        }
        assert(self@.arguments.take(self@.arguments.len() as int) =~= self@.arguments);
        if self.input.is_some() {
            append_str(&mut text, " ");
            if self.sensitive_input {
                append_str(&mut text, "<stdin:redacted>");
            } else {
                append_str(&mut text, "<stdin>");
            }
        }
        CommandSummary(text)
    }
}


/// The mathematical content of a [`CommandResult`].
pub struct CommandResultView {
    pub code: Option<i32>,
    pub stdout: Seq<u8>,
    pub stderr: Seq<u8>,
    pub summary: Seq<char>,
}

/// The raw result of a completed tmux command.
///
/// A non-zero exit status is data at this layer; `ensure_success` turns it
/// into [`Error::CommandFailed`].
#[derive(Debug)]
pub struct CommandResult {
    code: Option<i32>,
    stdout: TmuxText,
    stderr: TmuxText,
    summary: CommandSummary,
}

impl View for CommandResult {
    type V = CommandResultView;

    closed spec fn view(&self) -> CommandResultView {
        CommandResultView {
            code: self.code,
            stdout: self.stdout@,
            stderr: self.stderr@,
            summary: self.summary@,
        }
    }
}

impl Clone for CommandResult {
    fn clone(&self) -> (r: Self)
        ensures
            r@ == self@,
    {
        CommandResult {
            code: self.code,
            stdout: self.stdout.clone(),
            stderr: self.stderr.clone(),
            summary: self.summary.clone(),
        }
    }
}

/// The lines of output that `stdout_lines` and `stderr_lines` report: the
/// non-empty pieces between line feeds, each without one trailing carriage return.
pub open spec fn output_lines(bytes: Seq<u8>) -> Seq<Seq<u8>> {
    nonempty_lines(bytes).map_values(|l: Seq<u8>| strip_cr(l))
}

/// The non-empty lines of `bytes` without trailing carriage returns.
fn lines_of(bytes: &[u8]) -> (r: Vec<TmuxText>)
    ensures
        r@.map_values(|t: TmuxText| t@) == output_lines(bytes@),
{
    let pieces = split_nonempty(bytes, 10u8);
    let mut r: Vec<TmuxText> = Vec::new();
    let mut k: usize = 0;
    while k < pieces.len()
        invariant
            k <= pieces@.len(),
            pieces@.map_values(|v: Vec<u8>| v@) == nonempty_lines(bytes@),
            r@.map_values(|t: TmuxText| t@) == pieces@.take(k as int).map_values(|v: Vec<u8>| strip_cr(v@)),
        decreases pieces.len() - k,
    {
        let line = &pieces[k];
        let mut copy: Vec<u8> = line.clone();
        assert(copy@ =~= line@);
        if copy.len() > 0 && copy[copy.len() - 1] == 13u8 {
            copy.pop();
        }
        assert(copy@ =~= strip_cr(line@));
        let t = TmuxText::new(copy);
        let ghost before = r@;
        r.push(t);
        proof {
            lemma_map_push(before, t, |t: TmuxText| t@);
            lemma_take_push(pieces@, k as int);
            lemma_map_push(pieces@.take(k as int), pieces@[k as int], |v: Vec<u8>| strip_cr(v@));
        }
        k = k + 1;
    }
    assert(pieces@.take(pieces@.len() as int) == pieces@);
    let ghost stripped = pieces@.map_values(|v: Vec<u8>| strip_cr(v@));
    let ghost plain_pieces = pieces@.map_values(|v: Vec<u8>| v@);
    assert forall|i: int| 0 <= i < pieces@.len() implies #[trigger] stripped[i] == output_lines(bytes@)[i] by {
        assert(plain_pieces[i] == nonempty_lines(bytes@)[i]);
    }
    assert(output_lines(bytes@) =~= pieces@.map_values(|v: Vec<u8>| strip_cr(v@)));
    r
}

impl CommandResult {
    /// Records the outcome of a finished tmux process.
    pub fn new(code: Option<i32>, stdout: Vec<u8>, stderr: Vec<u8>, summary: CommandSummary) -> (r: Self)
        ensures
            r@ == (CommandResultView { code, stdout: stdout@, stderr: stderr@, summary: summary@ }),
    {
        CommandResult { code, stdout: TmuxText::new(stdout), stderr: TmuxText::new(stderr), summary }
    }

    /// Returns whether tmux exited successfully (with status zero).
    pub fn success(&self) -> (r: bool)
        ensures
            r == (self@.code == Some(0i32)),
    {
        match self.code {
            Some(c) => c == 0,
            None => false,
        }
    }

    /// Returns the exit code, or `None` when the process was ended by a signal.
    pub fn status(&self) -> (r: Option<i32>)
        ensures
            r == self@.code,
    {
        self.code
    }

    /// Returns raw standard output.
    pub fn stdout(&self) -> (r: &TmuxText)
        ensures
            r@ == self@.stdout,
    {
        &self.stdout
    }

    /// Returns raw standard error.
    pub fn stderr(&self) -> (r: &TmuxText)
        ensures
            r@ == self@.stderr,
    {
        &self.stderr
    }

    /// Returns the redacted command summary.
    pub fn summary(&self) -> (r: &CommandSummary)
        ensures
            r@ == self@.summary,
    {
        &self.summary
    }

    /// The standard-output lines, without requiring UTF-8.
    pub fn stdout_lines(&self) -> (r: Vec<TmuxText>)
        ensures
            r@.map_values(|t: TmuxText| t@) == output_lines(self@.stdout),
    {
        lines_of(self.stdout.as_bytes())
    }

    /// The standard-error lines, without requiring UTF-8.
    pub fn stderr_lines(&self) -> (r: Vec<TmuxText>)
        ensures
            r@.map_values(|t: TmuxText| t@) == output_lines(self@.stderr),
    {
        lines_of(self.stderr.as_bytes())
    }

    /// Turns a non-zero status into a typed error.
    pub fn ensure_success(self, operation: &'static str) -> (r: Result<Self, Error>)
        ensures
            self@.code == Some(0i32) ==> (r matches Ok(v) && v@ == self@),
            self@.code != Some(0i32) ==> (r matches Err(e)
                && e@ == (ErrorView::CommandFailed { operation: operation@, result: self@ })),
    {
        if self.success() {
            Ok(self)
        } else {
            Err(Error::CommandFailed { operation, result: Box::new(self) })
        }
    }
}

/// The diagnostic text of one argument.
pub open spec fn argument_part(a: (Seq<u8>, bool)) -> Seq<char> {
    if a.1 {
        "<redacted>"@
    } else {
        utf8_lossy(a.0)
    }
}

/// The diagnostic text of arguments, each preceded by a space.
pub open spec fn joined_parts(args: Seq<(Seq<u8>, bool)>) -> Seq<char>
    decreases args.len(),
{
    if args.len() == 0 {
        seq![]
    } else {
        joined_parts(args.drop_last()) + " "@ + argument_part(args.last())
    }
}

/// The redacted description of a command: the subcommand and each argument
/// separated by single spaces, sensitive arguments shown as `<redacted>`, and
/// standard input shown as `<stdin>` or `<stdin:redacted>`.
pub open spec fn summary_text(c: CommandView) -> Seq<char> {
    utf8_lossy(c.subcommand) + joined_parts(c.arguments) + match c.input {
        None => seq![],
        Some(_) => " "@ + if c.sensitive_input {
            "<stdin:redacted>"@
        } else {
            "<stdin>"@
        },
    }
}

/// The bytes of a decimal number.
pub open spec fn number_bytes(n: nat) -> Seq<u8> {
    encode_utf8(decimal(n))
}

/// The bytes of a signed decimal number.
pub open spec fn signed_bytes(n: int) -> Seq<u8> {
    encode_utf8(signed_decimal(n))
}

/// The bytes of an optional text value.
pub open spec fn text_opt(t: Option<TmuxText>) -> Option<Seq<u8>> {
    match t {
        Some(v) => Some(v@),
        None => None,
    }
}

/// Whether two optional texts hold the same bytes, or are both absent.
pub fn same_text_opt(a: &Option<TmuxText>, b: &Option<TmuxText>) -> (r: bool)
    ensures
        r == (text_opt(*a) == text_opt(*b)),
{
    match (a, b) {
        (None, None) => true,
        (Some(x), Some(y)) => x == y,
        _ => false,
    }
}

/// The bytes of an optional number.
pub open spec fn number_opt(n: Option<u64>) -> Option<Seq<u8>> {
    match n {
        Some(v) => Some(number_bytes(v as nat)),
        None => None,
    }
}

/// A hidden argument present only when the value is.
pub open spec fn hidden_opt(value: Option<Seq<u8>>) -> Seq<(Seq<u8>, bool)> {
    match value {
        Some(v) => seq![hidden_bytes(v)],
        None => seq![],
    }
}

/// A visible argument present only when the value is.
pub open spec fn plain_opt(value: Option<Seq<u8>>) -> Seq<(Seq<u8>, bool)> {
    match value {
        Some(v) => seq![plain_bytes(v)],
        None => seq![],
    }
}

/// One environment assignment: `NAME=VALUE`, the value rendered lossily as UTF-8.
pub open spec fn env_entry(name: Seq<char>, value: Seq<u8>) -> Seq<u8> {
    encode_utf8(name + "="@ + utf8_lossy(value))
}

/// `-e NAME=VALUE` for each entry, in order, the assignments hidden from diagnostics.
pub open spec fn env_args(env: Seq<(Seq<char>, Seq<u8>)>) -> Seq<(Seq<u8>, bool)>
    decreases env.len(),
{
    if env.len() == 0 {
        seq![]
    } else {
        env_args(env.drop_last()) + seq![plain("-e"), hidden_bytes(env_entry(env.last().0, env.last().1))]
    }
}

/// Entries with their text values taken as bytes.
pub open spec fn bytes_pairs(s: Seq<(Seq<char>, TmuxText)>) -> Seq<(Seq<char>, Seq<u8>)> {
    s.map_values(|e: (Seq<char>, TmuxText)| (e.0, e.1@))
}

/// The entries of an environment map in key order, values as bytes.
pub open spec fn env_view(m: StrMap<TmuxText>) -> Seq<(Seq<char>, Seq<u8>)> {
    bytes_pairs(m.pairs())
}

/// Taking values as bytes keeps the key order and maps the described map's values.
pub proof fn lemma_bytes_pairs(s: Seq<(Seq<char>, TmuxText)>)
    ensures
        pairs_map(bytes_pairs(s)) == pairs_map(s).map_values(|t: TmuxText| t@),
        sorted_pairs(s) ==> sorted_pairs(bytes_pairs(s)),
    decreases s.len(),
{
    if s.len() > 0 {
        lemma_bytes_pairs(s.drop_last());
        assert(bytes_pairs(s).drop_last() =~= bytes_pairs(s.drop_last()));
        let m = pairs_map(s.drop_last());
        assert(m.insert(s.last().0, s.last().1).map_values(|t: TmuxText| t@)
            =~= m.map_values(|t: TmuxText| t@).insert(s.last().0, s.last().1@));
    } else {
        assert(pairs_map(s).map_values(|t: TmuxText| t@) =~= Map::<Seq<char>, Seq<u8>>::empty());
    }
}

/// The decimal text of a number as argument bytes.
pub fn number_text(n: u64) -> (r: TmuxText)
    ensures
        r@ == number_bytes(n as nat),
{
    let digits = decimal_chars(n);
    TmuxText::from_string(string_from_chars(digits.as_slice()))
}

/// The signed decimal text of a number as argument bytes.
pub fn signed_text(n: i64) -> (r: TmuxText)
    ensures
        r@ == signed_bytes(n as int),
{
    let digits = signed_decimal_chars(n);
    TmuxText::from_string(string_from_chars(digits.as_slice()))
}

fn env_assignment(name: &String, value: &TmuxText) -> (r: TmuxText)
    ensures
        r@ == env_entry(name@, value@),
{
    let mut s = owned(name.as_str());
    append_str(&mut s, "=");
    let v = value.to_string_lossy();
    append_str(&mut s, v.as_str());
    TmuxText::from_string(s)
}

impl Command {
    /// Appends `flag` when `enabled`.
    pub fn flag(self, enabled: bool, flag: &str) -> (r: Self)
        ensures
            r@ == with_args(self@, flag_if(enabled, flag)),
    {
        if enabled {
            self.arg(flag)
        } else {
            assert(self@.arguments + seq![] =~= self@.arguments);
            self
        }
    }

    /// Appends `flag` and the value when there is one.
    pub fn option_text(self, flag: &str, value: &Option<TmuxText>) -> (r: Self)
        ensures
            r@ == with_args(self@, option_pair(flag, text_opt(*value))),
    {
        match value {
            Some(v) => {
                let r = self.arg(flag).arg_text(v.clone());
                assert(r@.arguments =~= self@.arguments + option_pair(flag, text_opt(*value)));
                r
            },
            None => {
                assert(self@.arguments + seq![] =~= self@.arguments);
                self
            },
        }
    }

    /// Appends `flag` and the decimal number when there is one.
    pub fn option_number(self, flag: &str, value: Option<u64>) -> (r: Self)
        ensures
            r@ == with_args(self@, option_pair(flag, number_opt(value))),
    {
        match value {
            Some(n) => {
                let r = self.arg(flag).arg_text(number_text(n));
                assert(r@.arguments =~= self@.arguments + option_pair(flag, number_opt(value)));
                r
            },
            None => {
                assert(self@.arguments + seq![] =~= self@.arguments);
                self
            },
        }
    }

    /// Appends the value, hidden from diagnostics, when there is one.
    pub fn hidden_text(self, value: &Option<TmuxText>) -> (r: Self)
        ensures
            r@ == with_args(self@, hidden_opt(text_opt(*value))),
    {
        match value {
            Some(v) => self.sensitive_arg_text(v.clone()),
            None => {
                assert(self@.arguments + seq![] =~= self@.arguments);
                self
            },
        }
    }

    /// Appends the value, visible in diagnostics, when there is one.
    pub fn plain_text(self, value: &Option<TmuxText>) -> (r: Self)
        ensures
            r@ == with_args(self@, plain_opt(text_opt(*value))),
    {
        match value {
            Some(v) => self.arg_text(v.clone()),
            None => {
                assert(self@.arguments + seq![] =~= self@.arguments);
                self
            },
        }
    }

    /// Appends `-e NAME=VALUE` for every entry of an environment map, in key order.
    pub fn environment(self, env: &StrMap<TmuxText>) -> (r: Self)
        ensures
            r@ == with_args(self@, env_args(env_view(*env))),
    {
        let entries = env.iter();
        let ghost all = env_view(*env);
        let mut command = self;
        let mut k: usize = 0;
        proof {
            assert(all.take(0) =~= Seq::<(Seq<char>, Seq<u8>)>::empty());
            assert(command@.arguments + env_args(all.take(0)) =~= command@.arguments);
        }
        while k < entries.len()
            invariant
                k <= entries@.len(),
                all == env_view(*env),
                entries@.map_values(|e: (String, TmuxText)| (e.0@, e.1)) == env.pairs(),
                command@ == with_args(self@, env_args(all.take(k as int))),
            decreases entries.len() - k,
        {
            let e = &entries[k];
            proof {
                let next = all.take(k as int + 1);
                assert(next.drop_last() =~= all.take(k as int));
                assert(env.pairs()[k as int] == (entries@[k as int].0@, entries@[k as int].1));
                assert(next.last() == (e.0@, e.1@));
            }
            let ghost before = command@;
            command = command.arg("-e").sensitive_arg_text(env_assignment(&e.0, &e.1));
            proof {
                assert(command@.arguments =~= self@.arguments + env_args(all.take(k as int + 1)));
            }
            k = k + 1;
        }
        proof {
            assert(all.take(entries@.len() as int) =~= all);
        }
        command
    }
}


/// Two argument lists that differ only in the values of sensitive arguments.
pub open spec fn same_but_secrets(a: Seq<(Seq<u8>, bool)>, b: Seq<(Seq<u8>, bool)>) -> bool {
    &&& a.len() == b.len()
    &&& forall|i: int| 0 <= i < a.len() ==> (#[trigger] a[i]).1 == b[i].1
    &&& forall|i: int| 0 <= i < a.len() && !(#[trigger] a[i]).1 ==> a[i].0 == b[i].0
}

proof fn lemma_joined_parts_secrets(a: Seq<(Seq<u8>, bool)>, b: Seq<(Seq<u8>, bool)>)
    requires
        same_but_secrets(a, b),
    ensures
        joined_parts(a) == joined_parts(b),
    decreases a.len(),
{
    if a.len() > 0 {
        let n = a.len() - 1;
        assert(a[n].1 == b[n].1);
        assert(!a[n].1 ==> a[n].0 == b[n].0);
        assert(same_but_secrets(a.drop_last(), b.drop_last())) by {
            assert forall|i: int| 0 <= i < a.drop_last().len() implies (#[trigger] a.drop_last()[i]).1 == b.drop_last()[i].1 by {
                assert(a[i].1 == b[i].1);
            }
            assert forall|i: int| 0 <= i < a.drop_last().len() && !(#[trigger] a.drop_last()[i]).1 implies a.drop_last()[i].0 == b.drop_last()[i].0 by {
                assert(a[i].1 == b[i].1);
            }
        }
        lemma_joined_parts_secrets(a.drop_last(), b.drop_last());
    }
}

/// A command's summary never depends on what its sensitive arguments or its
/// standard input hold: commands that differ only there summarize alike.
pub proof fn law_summary_hides_secrets(a: CommandView, b: CommandView)
    requires
        a.subcommand == b.subcommand,
        same_but_secrets(a.arguments, b.arguments),
        a.input is Some <==> b.input is Some,
        a.sensitive_input == b.sensitive_input,
    ensures
        summary_text(a) == summary_text(b),
{
    lemma_joined_parts_secrets(a.arguments, b.arguments);
}

/// Argument groups laid end to end, in order.
pub open spec fn concat_groups(groups: Seq<Seq<(Seq<u8>, bool)>>) -> Seq<(Seq<u8>, bool)>
    decreases groups.len(),
{
    if groups.len() == 0 {
        Seq::empty()
    } else {
        concat_groups(groups.drop_last()) + groups.last()
    }
}

/// `with` is `without` with `added` put in at one place, nothing else
/// changing.
pub open spec fn inserts(without: Seq<(Seq<u8>, bool)>, with: Seq<(Seq<u8>, bool)>, added: Seq<(Seq<u8>, bool)>) -> bool {
    exists|p: int| 0 <= p <= without.len() && with == without.take(p) + added + without.skip(p)
}

proof fn lemma_concat_groups_split(groups: Seq<Seq<(Seq<u8>, bool)>>, i: int)
    requires
        0 <= i <= groups.len(),
    ensures
        concat_groups(groups) == concat_groups(groups.take(i)) + concat_groups(groups.skip(i)),
    decreases groups.len(),
{
    if groups.len() == 0 {
        assert(groups.take(i) =~= groups);
        assert(groups.skip(i) =~= groups);
        assert(concat_groups(groups) + concat_groups(groups) =~= concat_groups(groups));
    } else if i == groups.len() {
        assert(groups.take(i) =~= groups);
        assert(groups.skip(i).len() == 0);
        assert(concat_groups(groups) + Seq::<(Seq<u8>, bool)>::empty() =~= concat_groups(groups));
    } else {
        let front = groups.drop_last();
        lemma_concat_groups_split(front, i);
        assert(front.take(i) =~= groups.take(i));
        assert(groups.skip(i).drop_last() =~= front.skip(i));
        assert(groups.skip(i).last() == groups.last());
        vstd::seq_lib::lemma_concat_associative(concat_groups(groups.take(i)), concat_groups(front.skip(i)), groups.last());
    }
}

/// Filling an empty argument group puts its arguments in at one place and
/// changes nothing else.
pub proof fn lemma_fill_group(groups: Seq<Seq<(Seq<u8>, bool)>>, i: int, added: Seq<(Seq<u8>, bool)>)
    requires
        0 <= i < groups.len(),
        groups[i].len() == 0,
    ensures
        inserts(concat_groups(groups), concat_groups(groups.update(i, added)), added),
{
    let filled = groups.update(i, added);
    lemma_concat_groups_split(groups, i);
    lemma_concat_groups_split(groups.skip(i), 1);
    lemma_concat_groups_split(filled, i);
    lemma_concat_groups_split(filled.skip(i), 1);
    assert(filled.take(i) =~= groups.take(i));
    assert(filled.skip(i).skip(1) =~= groups.skip(i).skip(1));
    let one = groups.skip(i).take(1);
    assert(one.drop_last().len() == 0);
    assert(concat_groups(one.drop_last()) == Seq::<(Seq<u8>, bool)>::empty());
    assert(one.last() == groups[i]);
    assert(concat_groups(one) =~= groups[i]);
    let other = filled.skip(i).take(1);
    assert(other.drop_last().len() == 0);
    assert(concat_groups(other.drop_last()) == Seq::<(Seq<u8>, bool)>::empty());
    assert(other.last() == added);
    assert(concat_groups(other) =~= added);
    let pre = concat_groups(groups.take(i));
    let post = concat_groups(groups.skip(i).skip(1));
    let without = concat_groups(groups);
    assert(without =~= pre + post);
    assert(without.take(pre.len() as int) =~= pre);
    assert(without.skip(pre.len() as int) =~= post);
    assert(concat_groups(filled) =~= pre + added + post);
}

/// Adding a last group appends its arguments.
pub proof fn lemma_concat_groups_push(groups: Seq<Seq<(Seq<u8>, bool)>>, last: Seq<(Seq<u8>, bool)>)
    ensures
        concat_groups(groups.push(last)) == concat_groups(groups) + last,
{
    assert(groups.push(last).drop_last() =~= groups);
}

} // verus!
