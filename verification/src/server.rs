//! Server-level decisions: socket selection, validation of names, parsing of
//! tmux output, and the commands of server-wide operations.

use vstd::prelude::*;
use vstd::string::StringSliceAdditionalSpecFns;
use vstd::string::StrSliceExecFns;
use vstd::utf8::{decode_utf8, encode_utf8, valid_utf8};
use crate::command::{
    number_text, CommandView, command_with, env_args, env_view, flag_if, hidden_opt, number_bytes, option_pair, plain, plain_bytes,
    text_opt, with_args, Command, CommandResult, concat_groups, inserts, lemma_concat_groups_push, lemma_fill_group,
};
use crate::error::{invalid_argument, invalid_argument_error, Error, ErrorView, ObjectKind};
use crate::formats::{decode_error, decode_error_prefixed, descriptor_views, rendered, render_format, FormatDescriptor, NativeFilter};
use crate::options::{option_bytes, scope_flags, OptionScope, OptionValue};
use crate::scan::{chars_equal, contains_char, contains_seq, slice_chars};
use crate::strmap::{pairs_map, sorted_pairs, StrMap};
use crate::target::{session_target_text, ClientName, PaneId, SessionName, SessionTarget, SessionTargetView};
use crate::text::{
    append_str, chars_of, lemma_map_push, lemma_take_push, nonempty_pieces, owned, split_nonempty, split_on,
    utf8_error_text, utf8_str, TmuxText,
};
use crate::version::{meets_spec, minimum_release, parse_tmux_version, ReleaseVersion, TmuxVersion, TmuxVersionView};

verus! {

/// A name is acceptable when it is non-empty and holds no `=`, NUL or newline.
pub open spec fn valid_name(s: Seq<char>) -> bool {
    s.len() > 0 && !s.contains('=') && !s.contains('\0') && !s.contains('\n')
}

/// The error for an unacceptable name of the given kind.
pub open spec fn invalid_name(argument: &str) -> ErrorView {
    invalid_argument(argument, "must be non-empty and contain no '=', NUL, or newline")
}

/// Rejects names that are empty or hold `=`, NUL or a newline.
pub fn validate_name(argument: &'static str, name: &str) -> (r: Result<(), Error>)
    ensures
        valid_name(name@) ==> r is Ok,
        !valid_name(name@) ==> (r matches Err(e) && e@ == invalid_name(argument)),
{
    let chars = chars_of(name);
    if chars.len() == 0 || contains_char(chars.as_slice(), '=') || contains_char(chars.as_slice(), '\0')
        || contains_char(chars.as_slice(), '\n')
    {
        return Err(invalid_argument_error(argument, "must be non-empty and contain no '=', NUL, or newline"));
    }
    Ok(())
}

/// `new` holds the entries of `old` with `name` set to `value`, in key order.
pub open spec fn env_inserted(old: Seq<(Seq<char>, Seq<u8>)>, new: Seq<(Seq<char>, Seq<u8>)>, name: Seq<char>, value: Seq<u8>) -> bool {
    sorted_pairs(new) && pairs_map(new) == pairs_map(old).insert(name, value)
}

/// Validates an environment name and stores the value under it.
pub fn insert_env(env: &mut StrMap<TmuxText>, name: String, value: TmuxText) -> (r: Result<(), Error>)
    ensures
        valid_name(name@) ==> (r is Ok && env_inserted(env_view(*old(env)), env_view(*final(env)), name@, value@)),
        !valid_name(name@) ==> (r matches Err(e) && e@ == invalid_name("environment name") && *final(env) == *old(env)),
{
    match validate_name("environment name", name.as_str()) {
        Err(e) => Err(e),
        Ok(()) => {
            let ghost before = env.pairs();
            let ghost k = name@;
            let ghost v = value@;
            proof {
                crate::command::lemma_bytes_pairs(before);
            }
            env.insert(name, value);
            proof {
                let after = env.pairs();
                crate::command::lemma_bytes_pairs(after);
                let m = pairs_map(before);
                assert(m.insert(k, value).map_values(|t: TmuxText| t@) =~= m.map_values(|t: TmuxText| t@).insert(k, v));
            }
            Ok(())
        },
    }
}

/// The identity of an optional pane.
pub open spec fn pane_opt(p: Option<PaneId>) -> Option<u64> {
    match p {
        Some(v) => Some(v@),
        None => None,
    }
}

/// The bytes of an optional client name.
pub open spec fn client_opt(c: Option<ClientName>) -> Option<Seq<u8>> {
    match c {
        Some(v) => Some(v@),
        None => None,
    }
}

/// The bytes of an optional client name, for a command argument.
pub fn client_text(c: &Option<ClientName>) -> (r: Option<TmuxText>)
    ensures
        text_opt(r) == client_opt(*c),
{
    match c {
        Some(v) => Some(v.to_os_string()),
        None => None,
    }
}

/// The tmux socket identity used by a server handle.
#[derive(Clone, Debug)]
pub enum Socket {
    /// Let tmux use its default socket.
    Default,
    /// Select a named socket with `-L`.
    Name(TmuxText),
    /// Select an exact socket path with `-S`.
    Path(TmuxText),
}

impl PartialEq for Socket {
    fn eq(&self, other: &Self) -> (r: bool) {
        match (self, other) {
            (Socket::Default, Socket::Default) => true,
            (Socket::Name(a), Socket::Name(b)) => *a == *b,
            (Socket::Path(a), Socket::Path(b)) => *a == *b,
            _ => false,
        }
    }
}

impl vstd::std_specs::cmp::PartialEqSpecImpl for Socket {
    open spec fn obeys_eq_spec() -> bool {
        true
    }

    open spec fn eq_spec(&self, other: &Self) -> bool {
        match (self, other) {
            (Socket::Default, Socket::Default) => true,
            (Socket::Name(a), Socket::Name(b)) => a@ == b@,
            (Socket::Path(a), Socket::Path(b)) => a@ == b@,
            _ => false,
        }
    }
}

impl Eq for Socket {}


/// A tmux client color mode supplied on each command.
#[derive(Clone, Copy, Debug, Eq, Hash, PartialEq, Structural)]
pub enum ColorMode {
    /// Let tmux detect color support.
    Default,
    /// Request 88-color mode (`-8`).
    Colors88,
    /// Request 256-color mode (`-2`).
    Colors256,
}

impl Default for ColorMode {
    fn default() -> (r: Self)
        ensures
            r == ColorMode::Default,
    {
        ColorMode::Default
    }
}

/// The arguments that precede every subcommand: the socket, the configuration
/// file, then the color mode.
pub open spec fn global_args(socket: Socket, config_file: Option<Seq<u8>>, color_mode: ColorMode) -> Seq<Seq<u8>> {
    (match socket {
        Socket::Default => seq![],
        Socket::Name(n) => seq![encode_utf8("-L"@), n@],
        Socket::Path(p) => seq![encode_utf8("-S"@), p@],
    }) + (match config_file {
        Some(f) => seq![encode_utf8("-f"@), f],
        None => seq![],
    }) + (match color_mode {
        ColorMode::Default => seq![],
        ColorMode::Colors88 => seq![encode_utf8("-8"@)],
        ColorMode::Colors256 => seq![encode_utf8("-2"@)],
    })
}

/// The views of a list of texts.
pub open spec fn texts_view(v: Seq<TmuxText>) -> Seq<Seq<u8>> {
    v.map_values(|t: TmuxText| t@)
}

fn push_text(v: &mut Vec<TmuxText>, t: TmuxText)
    ensures
        texts_view(final(v)@) == texts_view(old(v)@).push(t@),
{
    proof { lemma_map_push(v@, t, |t: TmuxText| t@); }
    v.push(t);
}

/// The arguments that precede every subcommand for a server configuration.
pub fn global_arguments(socket: &Socket, config_file: &Option<TmuxText>, color_mode: ColorMode) -> (r: Vec<TmuxText>)
    ensures
        texts_view(r@) == global_args(*socket, text_opt(*config_file), color_mode),
{
    let mut r: Vec<TmuxText> = Vec::new();
    assert(texts_view(r@) =~= Seq::<Seq<u8>>::empty());
    match socket {
        Socket::Default => {},
        Socket::Name(n) => {
            push_text(&mut r, TmuxText::from_str("-L"));
            push_text(&mut r, n.clone());
        },
        Socket::Path(p) => {
            push_text(&mut r, TmuxText::from_str("-S"));
            push_text(&mut r, p.clone());
        },
    }
    match config_file {
        Some(f) => {
            push_text(&mut r, TmuxText::from_str("-f"));
            push_text(&mut r, f.clone());
        },
        None => {},
    }
    match color_mode {
        ColorMode::Default => {},
        ColorMode::Colors88 => push_text(&mut r, TmuxText::from_str("-8")),
        ColorMode::Colors256 => push_text(&mut r, TmuxText::from_str("-2")),
    }
    assert(texts_view(r@) =~= global_args(*socket, text_opt(*config_file), color_mode));
    r
}

/// Typed arguments for creating a session.
#[derive(Clone, Debug)]
pub struct NewSession {
    name: Option<SessionName>,
    detached: bool,
    attach_if_exists: bool,
    window_name: Option<TmuxText>,
    cwd: Option<TmuxText>,
    size: Option<(u32, u32)>,
    group: Option<SessionTarget>,
    environment: StrMap<TmuxText>,
    shell_command: Option<TmuxText>,
}

/// The mathematical content of [`NewSession`].
pub struct NewSessionView {
    pub name: Option<Seq<char>>,
    pub detached: bool,
    pub attach_if_exists: bool,
    pub window_name: Option<Seq<u8>>,
    pub cwd: Option<Seq<u8>>,
    pub size: Option<(u32, u32)>,
    pub group: Option<SessionTargetView>,
    pub environment: Seq<(Seq<char>, Seq<u8>)>,
    pub shell_command: Option<Seq<u8>>,
}

impl View for NewSession {
    type V = NewSessionView;

    closed spec fn view(&self) -> NewSessionView {
        NewSessionView {
            name: match self.name { Some(v) => Some(v@), None => None },
            detached: self.detached,
            attach_if_exists: self.attach_if_exists,
            window_name: text_opt(self.window_name),
            cwd: text_opt(self.cwd),
            size: self.size,
            group: match self.group { Some(v) => Some(v@), None => None },
            environment: env_view(self.environment),
            shell_command: text_opt(self.shell_command),
        }
    }
}

impl Default for NewSession {
    /// The same value as `NewSession::new()`.
    fn default() -> (r: Self)
        ensures
            r@ == (NewSessionView { name: None, detached: true, attach_if_exists: false, window_name: None, cwd: None, size: None, group: None, environment: Seq::empty(), shell_command: None }),
    {
        NewSession::new()
    }
}

impl NewSession {
    /// Creates default detached-session arguments.
    pub fn new() -> (r: Self)
        ensures
            r@ == (NewSessionView { name: None, detached: true, attach_if_exists: false, window_name: None, cwd: None, size: None, group: None, environment: Seq::empty(), shell_command: None }),
    {
        let r = NewSession { name: None, detached: true, attach_if_exists: false, window_name: None, cwd: None, size: None, group: None, environment: StrMap::new(), shell_command: None };
        assert(r@.environment =~= Seq::empty());
        r
    }

    /// Chooses whether tmux should create the session detached.
    pub fn detached(self, enabled: bool) -> (r: Self)
        ensures
            r@ == (NewSessionView { detached: enabled, ..self@ }),
    {
        let mut s = self;
        s.detached = enabled;
        s
    }

    /// Enables tmux's attach-or-create behavior (`-A`).
    pub fn attach_if_exists(self, enabled: bool) -> (r: Self)
        ensures
            r@ == (NewSessionView { attach_if_exists: enabled, ..self@ }),
    {
        let mut s = self;
        s.attach_if_exists = enabled;
        s
    }

    /// Sets the first window's name.
    pub fn window_name(self, value: TmuxText) -> (r: Self)
        ensures
            r@ == (NewSessionView { window_name: Some(value@), ..self@ }),
    {
        let mut s = self;
        s.window_name = Some(value);
        s
    }

    /// Sets the starting directory.
    pub fn cwd(self, value: TmuxText) -> (r: Self)
        ensures
            r@ == (NewSessionView { cwd: Some(value@), ..self@ }),
    {
        let mut s = self;
        s.cwd = Some(value);
        s
    }

    /// Sets an initial session environment variable. Values are hidden in diagnostics.
    pub fn environment(self, name: String, value: TmuxText) -> (r: Result<Self, Error>)
        ensures
            valid_name(name@) ==> (r matches Ok(x) && x@ == (NewSessionView { environment: x@.environment, ..self@ })
                && env_inserted(self@.environment, x@.environment, name@, value@)),
            !valid_name(name@) ==> (r matches Err(e) && e@ == invalid_name("environment name")),
    {
        let mut s = self;
        match insert_env(&mut s.environment, name, value) {
            Ok(()) => Ok(s),
            Err(e) => Err(e),
        }
    }

    /// Sets the tmux shell command for the first pane.
    pub fn shell_command(self, value: TmuxText) -> (r: Self)
        ensures
            r@ == (NewSessionView { shell_command: Some(value@), ..self@ }),
    {
        let mut s = self;
        s.shell_command = Some(value);
        s
    }

    /// Validates and sets the session name.
    pub fn name(self, name: &str) -> (r: Result<Self, Error>)
        ensures
            crate::target::valid_session_name(name@) ==> (r matches Ok(x) && x@ == (NewSessionView { name: Some(name@), ..self@ })),
            !crate::target::valid_session_name(name@) ==> (r matches Err(e) && e@ == ErrorView::InvalidSessionName(name@)),
    {
        match SessionName::new(name) {
            Ok(n) => {
                let mut s = self;
                s.name = Some(n);
                Ok(s)
            },
            Err(e) => Err(e),
        }
    }

    /// Sets an initial terminal size; both dimensions must be non-zero.
    pub fn size(self, width: u32, height: u32) -> (r: Result<Self, Error>)
        ensures
            width != 0 && height != 0 ==> (r matches Ok(x) && x@ == (NewSessionView { size: Some((width, height)), ..self@ })),
            width == 0 || height == 0 ==> (r matches Err(e) && e@ == invalid_argument("session size", "width and height must be non-zero")),
    {
        if width == 0 || height == 0 {
            return Err(invalid_argument_error("session size", "width and height must be non-zero"));
        }
        let mut s = self;
        s.size = Some((width, height));
        Ok(s)
    }

    /// Adds the session to a session group.
    pub fn group(self, target: SessionTarget) -> (r: Self)
        ensures
            r@ == (NewSessionView { group: Some(target@), ..self@ }),
    {
        let mut s = self;
        s.group = Some(target);
        s
    }
}

/// The bytes of an optional session name.
pub open spec fn name_bytes(n: Option<Seq<char>>) -> Option<Seq<u8>> {
    match n {
        Some(s) => Some(encode_utf8(s)),
        None => None,
    }
}

/// The bytes of an optional session target.
pub open spec fn session_target_bytes(t: Option<SessionTargetView>) -> Option<Seq<u8>> {
    match t {
        Some(s) => Some(encode_utf8(session_target_text(s))),
        None => None,
    }
}

/// `-x WIDTH -y HEIGHT` when a size is set.
pub open spec fn size_args(size: Option<(u32, u32)>) -> Seq<(Seq<u8>, bool)> {
    match size {
        Some((w, h)) => seq![plain("-x"), plain_bytes(number_bytes(w as nat)), plain("-y"), plain_bytes(number_bytes(h as nat))],
        None => seq![],
    }
}

/// Appends `-x WIDTH -y HEIGHT` when a size is set.
pub fn push_size(command: Command, size: Option<(u32, u32)>) -> (r: Command)
    ensures
        r@ == with_args(command@, size_args(size)),
{
    match size {
        Some((w, h)) => {
            let r = command.arg("-x").arg_text(number_text(w as u64)).arg("-y").arg_text(number_text(h as u64));
            assert(r@.arguments =~= command@.arguments + size_args(size));
            r
        },
        None => {
            assert(command@.arguments + seq![] =~= command@.arguments);
            command
        },
    }
}

/// The `new-session` command for the given arguments: it prints the new session's ID.
pub open spec fn new_session_spec(o: NewSessionView) -> CommandView {
    command_with("new-session", seq![plain("-P"), plain("-F"), plain("#{session_id}")]
        + flag_if(o.detached, "-d")
        + flag_if(o.attach_if_exists, "-A")
        + option_pair("-s", name_bytes(o.name))
        + option_pair("-n", o.window_name)
        + option_pair("-c", o.cwd)
        + size_args(o.size)
        + option_pair("-t", session_target_bytes(o.group))
        + env_args(o.environment)
        + hidden_opt(o.shell_command))
}

/// Builds the command that creates a session.
pub fn new_session_command(options: &NewSession) -> (r: Command)
    ensures
        r@ == new_session_spec(options@),
{
    let name = match &options.name {
        Some(n) => Some(n.to_text()),
        None => None,
    };
    let group = match &options.group {
        Some(g) => Some(g.to_text()),
        None => None,
    };
    assert(text_opt(name) == name_bytes(options@.name));
    assert(text_opt(group) == session_target_bytes(options@.group));
    let base = Command::new("new-session").arg("-P").arg("-F").arg("#{session_id}");
    assert(base@.arguments =~= seq![plain("-P"), plain("-F"), plain("#{session_id}")]);
    let command = base
        .flag(options.detached, "-d")
        .flag(options.attach_if_exists, "-A")
        .option_text("-s", &name)
        .option_text("-n", &options.window_name)
        .option_text("-c", &options.cwd);
    let command = push_size(command, options.size);
    command.option_text("-t", &group).environment(&options.environment).hidden_text(&options.shell_command)
}

/// The text of a single line of output, without trailing carriage returns and
/// newlines, when it is non-empty and holds no other newline.
pub open spec fn trimmed_line(s: Seq<char>) -> Seq<char>
    decreases s.len(),
{
    if s.len() > 0 && (s.last() == '\r' || s.last() == '\n') {
        trimmed_line(s.drop_last())
    } else {
        s
    }
}

/// What reading exactly one output line gives: the line, or an error in `context`.
pub open spec fn single_line_outcome(text: Seq<u8>, context: Seq<char>, r: Result<Seq<char>, ErrorView>) -> bool {
    if !valid_utf8(text) {
        r matches Err(ErrorView::Decode { context: c, message: _ }) && c == context
    } else {
        let line = trimmed_line(decode_utf8(text));
        if line.len() == 0 || line.contains('\n') {
            r == Err::<Seq<char>, ErrorView>(ErrorView::Decode { context, message: "expected exactly one non-empty output line"@ })
        } else {
            r == Ok::<Seq<char>, ErrorView>(line)
        }
    }
}

/// The views of a line reading.
pub open spec fn line_view(r: Result<&str, Error>) -> Result<Seq<char>, ErrorView> {
    match r {
        Ok(s) => Ok(s@),
        Err(e) => Err(e@),
    }
}

/// Reads exactly one non-empty output line.
pub fn single_line<'a>(text: &'a TmuxText, context: &'static str) -> (r: Result<&'a str, Error>)
    ensures
        single_line_outcome(text@, context@, line_view(r)),
{
    let value = match text.to_str() {
        Ok(v) => v,
        Err(e) => return Err(Error::Decode { context, message: utf8_error_text(&e) }),
    };
    let chars = chars_of(value);
    let mut end: usize = chars.len();
    assert(chars@.take(end as int) =~= chars@);
    while end > 0 && (chars[end - 1] == '\r' || chars[end - 1] == '\n')
        invariant
            end <= chars@.len(),
            trimmed_line(chars@) == trimmed_line(chars@.take(end as int)),
        decreases end,
    {
        assert(chars@.take(end as int).drop_last() =~= chars@.take(end - 1));
        end = end - 1;
    }
    assert(trimmed_line(chars@.take(end as int)) == chars@.take(end as int));
    let line = value.substring_char(0, end);
    let line_chars = slice_chars(chars.as_slice(), 0, end);
    if end == 0 || contains_char(line_chars.as_slice(), '\n') {
        return Err(Error::Decode { context, message: owned("expected exactly one non-empty output line") });
    }
    Ok(line)
}

/// The first position of byte `b`, if any.
pub open spec fn first_byte(s: Seq<u8>, b: u8) -> Option<int>
    decreases s.len(),
{
    if s.len() == 0 {
        None
    } else if s[0] == b {
        Some(0)
    } else {
        match first_byte(s.drop_first(), b) {
            Some(i) => Some(i + 1),
            None => None,
        }
    }
}

/// The context of a decoding error.
pub open spec fn decode_context(e: ErrorView) -> Option<Seq<char>> {
    match e {
        ErrorView::Decode { context, message: _ } => Some(context),
        _ => None,
    }
}

/// How an environment line fails to parse.
pub enum EnvFailure {
    /// The variable name is not UTF-8.
    BadName,
    /// A set variable has no `=`.
    NoSeparator,
}

/// One line of `show-environment` output: `-NAME` for a removed variable,
/// `NAME=VALUE` otherwise.
pub open spec fn env_line(line: Seq<u8>) -> Result<(Seq<char>, Option<Seq<u8>>), EnvFailure> {
    if line.len() > 0 && line[0] == 45u8 {
        if valid_utf8(line.drop_first()) {
            Ok((decode_utf8(line.drop_first()), None))
        } else {
            Err(EnvFailure::BadName)
        }
    } else {
        match first_byte(line, 61u8) {
            None => Err(EnvFailure::NoSeparator),
            Some(i) => if valid_utf8(line.take(i)) {
                Ok((decode_utf8(line.take(i)), Some(line.skip(i + 1))))
            } else {
                Err(EnvFailure::BadName)
            },
        }
    }
}

/// The environment that lines describe, a later line overriding an earlier one.
pub open spec fn env_of(lines: Seq<Seq<u8>>) -> Result<Map<Seq<char>, Option<Seq<u8>>>, EnvFailure>
    decreases lines.len(),
{
    if lines.len() == 0 {
        Ok(Map::empty())
    } else {
        match env_of(lines.drop_last()) {
            Err(f) => Err(f),
            Ok(m) => match env_line(lines.last()) {
                Err(f) => Err(f),
                Ok((name, value)) => Ok(m.insert(name, value)),
            },
        }
    }
}

/// The byte content of environment values.
pub open spec fn env_values(m: Map<Seq<char>, Option<TmuxText>>) -> Map<Seq<char>, Option<Seq<u8>>> {
    m.map_values(|o: Option<TmuxText>| text_opt(o))
}

fn first_byte_exec(s: &[u8], b: u8) -> (r: Option<usize>)
    ensures
        first_byte(s@, b) == (match r { Some(k) => Some(k as int), None => None::<int> }),
        r matches Some(k) ==> k < s@.len(),
{
    let mut k: usize = 0;
    assert(s@.skip(0) =~= s@);
    while k < s.len()
        invariant
            k <= s@.len(),
            first_byte(s@, b) == (match first_byte(s@.skip(k as int), b) { Some(i) => Some(i + k), None => None::<int> }),
        decreases s.len() - k,
    {
        if s[k] == b {
            return Some(k);
        }
        assert(s@.skip(k as int).drop_first() =~= s@.skip(k + 1));
        k = k + 1;
    }
    None
}

fn byte_range(s: &[u8], from: usize, to: usize) -> (r: &[u8])
    requires
        from <= to <= s@.len(),
    ensures
        r@ == s@.subrange(from as int, to as int),
{
    vstd::slice::slice_subrange(s, from, to)
}

proof fn lemma_env_error_persists(lines: Seq<Seq<u8>>, k: int)
    requires
        0 <= k <= lines.len(),
        env_of(lines.take(k)) is Err,
    ensures
        env_of(lines) == env_of(lines.take(k)),
    decreases lines.len() - k,
{
    if k < lines.len() {
        let next = lines.take(k + 1);
        assert(next.drop_last() =~= lines.take(k));
        lemma_env_error_persists(lines, k + 1);
    } else {
        assert(lines.take(k) =~= lines);
    }
}

/// Parses `show-environment` output. Removed entries have a `None` value.
pub fn parse_environment(bytes: &[u8]) -> (r: Result<StrMap<Option<TmuxText>>, Error>)
    ensures
        match env_of(nonempty_pieces(split_on(bytes@, 10u8))) {
            Ok(m) => r matches Ok(x) && env_values(x@) == m,
            Err(EnvFailure::BadName) => r matches Err(e) && decode_context(e@) == Some("environment name"@),
            Err(EnvFailure::NoSeparator) => r matches Err(e) && e@ == decode_error("tmux environment"@, "entry had no '=' separator"@),
        },
{
    let lines = split_nonempty(bytes, 10u8);
    let ghost lv = lines@.map_values(|v: Vec<u8>| v@);
    let mut env: StrMap<Option<TmuxText>> = StrMap::new();
    assert(env_values(env@) =~= Map::<Seq<char>, Option<Seq<u8>>>::empty());
    let mut i: usize = 0;
    let count = lines.len();
    while i < count
        invariant
            i <= lines@.len(),
            count == lines@.len(),
            lv == lines@.map_values(|v: Vec<u8>| v@),
            lv == nonempty_pieces(split_on(bytes@, 10u8)),
            env_of(lv.take(i as int)) == Ok::<Map<Seq<char>, Option<Seq<u8>>>, EnvFailure>(env_values(env@)),
        decreases lines.len() - i,
    {
        let ghost next = lv.take(i as int + 1);
        proof {
            assert(next.drop_last() =~= lv.take(i as int));
            assert(next.last() == lines@[i as int]@);
        }
        let line = lines[i].as_slice();
        let n = line.len();
        if n > 0 && line[0] == 45u8 {
            let name_bytes = byte_range(line, 1, n);
            assert(name_bytes@ =~= line@.drop_first());
            match utf8_str(name_bytes) {
                Err(e) => {
                    proof { lemma_env_error_persists(lv, i as int + 1); }
                    return Err(Error::Decode { context: "environment name", message: utf8_error_text(&e) });
                },
                Ok(name) => {
                    let ghost before = env@;
                    env.insert(owned(name), None);
                    proof {
                        assert(env_values(before.insert(name@, None)) =~= env_values(before).insert(name@, None));
                    }
                },
            }
        } else {
            match first_byte_exec(line, 61u8) {
                None => {
                    proof { lemma_env_error_persists(lv, i as int + 1); }
                    return Err(Error::Decode { context: "tmux environment", message: owned("entry had no '=' separator") });
                },
                Some(split) => {
                    let name_bytes = byte_range(line, 0, split);
                    assert(name_bytes@ =~= line@.take(split as int));
                    match utf8_str(name_bytes) {
                        Err(e) => {
                            proof { lemma_env_error_persists(lv, i as int + 1); }
                            return Err(Error::Decode { context: "environment name", message: utf8_error_text(&e) });
                        },
                        Ok(name) => {
                            let value = TmuxText::new(vstd::slice::slice_to_vec(byte_range(line, split + 1, n)));
                            assert(value@ =~= line@.skip(split + 1));
                            let ghost before = env@;
                            let ghost val = Some(value);
                            env.insert(owned(name), Some(value));
                            proof {
                                assert(env_values(before.insert(name@, val)) =~= env_values(before).insert(name@, text_opt(val)));
                            }
                        },
                    }
                },
            }
        }
        i = i + 1;
    }
    assert(lv.take(lines@.len() as int) =~= lv);
    Ok(env)
}

/// Whether `needle` occurs in `haystack`.
pub open spec fn contains_bytes_spec(haystack: Seq<u8>, needle: Seq<u8>) -> bool {
    exists|i: int| 0 <= i && i + needle.len() <= haystack.len() && #[trigger] haystack.subrange(i, i + needle.len()) == needle
}

/// Whether `needle` occurs in `haystack`; the needle must not be empty.
pub fn contains_bytes(haystack: &[u8], needle: &[u8]) -> (r: bool)
    requires
        needle@.len() > 0,
    ensures
        r == contains_bytes_spec(haystack@, needle@),
{
    let n = haystack.len();
    let m = needle.len();
    if m > n {
        return false;
    }
    let mut i: usize = 0;
    while i <= n - m
        invariant
            0 < m <= n,
            i <= n - m + 1,
            n == haystack@.len(),
            m == needle@.len(),
            forall|j: int| 0 <= j < i ==> #[trigger] haystack@.subrange(j, j + m) != needle@,
        decreases n - m + 1 - i,
    {
        let window = byte_range(haystack, i, i + m);
        if crate::text::bytes_equal(window, needle) {
            return true;
        }
        i = i + 1;
    }
    false
}

/// Encoding non-empty text gives non-empty bytes.
pub proof fn lemma_encode_nonempty(chars: Seq<char>)
    requires
        chars.len() > 0,
    ensures
        encode_utf8(chars).len() > 0,
{
    vstd::utf8::encode_utf8_first_scalar(chars);
}

/// Whether tmux's error output says that no server is running.
pub open spec fn daemon_not_running_spec(stderr: Seq<u8>) -> bool {
    contains_bytes_spec(stderr, encode_utf8("no server running"@))
        || (contains_bytes_spec(stderr, encode_utf8("error connecting to"@))
            && contains_bytes_spec(stderr, encode_utf8("No such file or directory"@)))
}

/// Whether tmux's error output says that no server is running.
pub fn daemon_not_running(stderr: &[u8]) -> (r: bool)
    ensures
        r == daemon_not_running_spec(stderr@),
{
    let a = crate::text::str_bytes("no server running");
    let b = crate::text::str_bytes("error connecting to");
    let c = crate::text::str_bytes("No such file or directory");
    proof {
        reveal_strlit("no server running");
        reveal_strlit("error connecting to");
        reveal_strlit("No such file or directory");
        lemma_encode_nonempty("no server running"@);
        lemma_encode_nonempty("error connecting to"@);
        lemma_encode_nonempty("No such file or directory"@);
    }
    contains_bytes(stderr, a.as_slice())
        || (contains_bytes(stderr, b.as_slice()) && contains_bytes(stderr, c.as_slice()))
}

/// What reading the output of `tmux -V` gives: the version, which must be at
/// least the oldest supported release.
pub fn read_version(stdout: &TmuxText) -> (r: Result<TmuxVersion, Error>)
    ensures
        !valid_utf8(stdout@) ==> (r matches Err(e) && decode_context(e@) == Some("tmux version"@)),
        valid_utf8(stdout@) ==> match parse_tmux_version(decode_utf8(stdout@)) {
            Err(e) => r matches Err(x) && x@ == e,
            Ok(v) => if meets_spec(v, minimum_release()) {
                r matches Ok(x) && x@ == v
            } else {
                r matches Err(x) && x@ == (ErrorView::Unsupported { capability: "tmux-client"@, required: minimum_release(), found: v })
            },
        },
{
    let text = match stdout.to_str() {
        Ok(t) => t,
        Err(e) => return Err(Error::Decode { context: "tmux version", message: utf8_error_text(&e) }),
    };
    let version = match TmuxVersion::parse(text) {
        Ok(v) => v,
        Err(e) => return Err(e),
    };
    match version.require("tmux-client", ReleaseVersion::minimum()) {
        Ok(()) => Ok(version),
        Err(e) => Err(e),
    }
}

/// Visible arguments holding each text.
pub open spec fn plain_all(v: Seq<Seq<u8>>) -> Seq<(Seq<u8>, bool)> {
    v.map_values(|t: Seq<u8>| plain_bytes(t))
}

/// The listing command: the subcommand, its arguments, an optional native
/// filter, and the format that requests `fields`.
pub open spec fn list_spec(subcommand: &str, fields: Seq<crate::formats::FormatDescriptorView>, arguments: Seq<Seq<u8>>, filter: Option<Seq<char>>) -> CommandView {
    command_with(subcommand, plain_all(arguments)
        + option_pair("-f", match filter { Some(f) => Some(encode_utf8(f)), None => None })
        + seq![plain("-F"), plain_bytes(encode_utf8(rendered(fields)))])
}

/// Builds a listing command for the given fields.
pub fn list_command(subcommand: &str, fields: &[FormatDescriptor], arguments: &Vec<TmuxText>, filter: Option<&NativeFilter>) -> (r: Command)
    ensures
        r@ == list_spec(subcommand, descriptor_views(fields@), texts_view(arguments@),
            match filter { Some(f) => Some(f@), None => None }),
{
    let filter_text = match filter {
        Some(f) => Some(TmuxText::from_str(f.as_str())),
        None => None,
    };
    let base = Command::new(subcommand).args(arguments);
    assert(base@.arguments =~= plain_all(texts_view(arguments@)));
    let format = TmuxText::from_string(render_format(fields));
    let r = base.option_text("-f", &filter_text).arg("-F").arg_text(format);
    assert(r@.arguments =~= list_spec(subcommand, descriptor_views(fields@), texts_view(arguments@),
        match filter { Some(f) => Some(f@), None => None }).arguments);
    r
}

/// Selects the one match of a lookup: none is an unknown object, several are
/// an ambiguous query.
pub fn single_match<T>(matches: Vec<T>, kind: ObjectKind, target: String, query: String) -> (r: Result<T, Error>)
    ensures
        matches@.len() == 0 ==> (r matches Err(e) && e@ == (ErrorView::ObjectNotFound { kind, target: target@ })),
        matches@.len() == 1 ==> (r matches Ok(t) && t == matches@[0]),
        matches@.len() > 1 ==> (r matches Err(e) && e@ == (ErrorView::MultipleObjects { kind, count: matches@.len() as usize, query: query@ })),
{
    let count = matches.len();
    if count == 0 {
        return Err(Error::ObjectNotFound { kind, target });
    }
    if count > 1 {
        return Err(Error::MultipleObjects { kind, count, query });
    }
    let mut m = matches;
    let t = m.remove(0);
    Ok(t)
}

/// The outcome of `kill-server`: success, or a server that was not running, is success.
pub fn kill_server_outcome(result: CommandResult) -> (r: Result<(), Error>)
    ensures
        (result@.code == Some(0i32) || daemon_not_running_spec(result@.stderr)) ==> r is Ok,
        !(result@.code == Some(0i32) || daemon_not_running_spec(result@.stderr)) ==> (r matches Err(e)
            && e@ == (ErrorView::CommandFailed { operation: "kill server"@, result: result@ })),
{
    if result.success() || daemon_not_running(result.stderr().as_bytes()) {
        return Ok(());
    }
    match result.ensure_success("kill server") {
        Ok(_) => Ok(()),
        Err(e) => Err(e),
    }
}

/// The outcome of probing a server: success, or the unavailable server's diagnostics.
pub fn alive_outcome(result: &CommandResult) -> (r: Result<(), Error>)
    ensures
        result@.code == Some(0i32) ==> r is Ok,
        result@.code != Some(0i32) ==> (r matches Err(e)
            && e@ == (ErrorView::ServerUnavailable { message: crate::text::utf8_lossy(result@.stderr) })),
{
    if result.success() {
        Ok(())
    } else {
        Err(Error::ServerUnavailable { message: result.stderr().to_string_lossy() })
    }
}

/// The socket path that the `TMUX` variable records: the text before its first comma.
pub open spec fn tmux_socket_spec(value: Seq<u8>) -> Option<Seq<char>> {
    let text = crate::text::utf8_lossy(value);
    let end = match crate::scan::find_char(text, ',') { Some(i) => i as int, None => text.len() as int };
    if end == 0 {
        None
    } else {
        Some(text.take(end))
    }
}

/// Reads the socket path from the value of the `TMUX` variable.
pub fn socket_from_tmux_variable(value: &TmuxText) -> (r: Result<TmuxText, Error>)
    ensures
        match tmux_socket_spec(value@) {
            Some(p) => r matches Ok(t) && t@ == encode_utf8(p),
            None => r matches Err(e) && e@ == ErrorView::NotInsideTmux,
        },
{
    let text = value.to_string_lossy();
    let chars = chars_of(text.as_str());
    let end = match crate::scan::find_char_exec(chars.as_slice(), ',') {
        Some(i) => i,
        None => chars.len(),
    };
    if end == 0 {
        return Err(Error::NotInsideTmux);
    }
    let path = slice_chars(chars.as_slice(), 0, end);
    assert(path@ =~= chars@.take(end as int));
    Ok(TmuxText::from_string(crate::text::string_from_chars(path.as_slice())))
}

/// The bytes of an optional string target.
pub open spec fn str_opt(t: Option<&str>) -> Option<Seq<u8>> {
    match t {
        Some(s) => Some(encode_utf8(s@)),
        None => None,
    }
}

pub(crate) fn str_text(t: Option<&str>) -> (r: Option<TmuxText>)
    ensures
        text_opt(r) == str_opt(t),
{
    match t {
        Some(s) => Some(TmuxText::from_str(s)),
        None => None,
    }
}

/// Visible arguments for each flag of a scope.
pub open spec fn scope_args(scope: OptionScope) -> Seq<(Seq<u8>, bool)> {
    scope_flags(scope).map_values(|f: Seq<char>| plain_bytes(encode_utf8(f)))
}

fn push_scope(command: Command, scope: OptionScope) -> (r: Command)
    ensures
        r@ == with_args(command@, scope_args(scope)),
{
    let flags = scope.show_flags();
    let mut texts: Vec<TmuxText> = Vec::new();
    let mut k: usize = 0;
    while k < flags.len()
        invariant
            k <= flags@.len(),
            flags@.map_values(|s: &'static str| s@) == scope_flags(scope),
            texts_view(texts@) == scope_flags(scope).take(k as int).map_values(|f: Seq<char>| encode_utf8(f)),
        decreases flags.len() - k,
    {
        let t = TmuxText::from_str(flags[k]);
        proof {
            lemma_map_push(texts@, t, |t: TmuxText| t@);
            assert(scope_flags(scope).take(k + 1).map_values(|f: Seq<char>| encode_utf8(f))
                =~= scope_flags(scope).take(k as int).map_values(|f: Seq<char>| encode_utf8(f)).push(encode_utf8(flags@[k as int]@)));
        }
        texts.push(t);
        k = k + 1;
    }
    assert(scope_flags(scope).take(flags@.len() as int) =~= scope_flags(scope));
    let r = command.args(&texts);
    let ghost mapped = texts@.map_values(|t: TmuxText| plain_bytes(t@));
    assert forall|i: int| 0 <= i < texts@.len() implies #[trigger] mapped[i] == scope_args(scope)[i] by {
        assert(texts_view(texts@)[i] == texts@[i]@);
    }
    assert(mapped =~= scope_args(scope));
    assert(r@.arguments =~= command@.arguments + scope_args(scope));
    r
}

/// `show-options` for a scope and optional target, with inherited values.
pub open spec fn show_options_spec(scope: OptionScope, target: Option<Seq<u8>>) -> CommandView {
    command_with("show-options", scope_args(scope) + seq![plain("-A")] + option_pair("-t", target))
}

/// Builds the command that shows options at a scope.
pub fn show_options_command(scope: OptionScope, target: Option<&str>) -> (r: Command)
    ensures
        r@ == show_options_spec(scope, str_opt(target)),
{
    let t = str_text(target);
    let base = push_scope(Command::new("show-options"), scope);
    assert(base@.arguments =~= scope_args(scope));
    base.arg("-A").option_text("-t", &t)
}

/// `show-options` for the sparse, indexed options of a scope.
pub open spec fn show_sparse_spec(scope: OptionScope, target: Option<Seq<u8>>) -> CommandView {
    command_with("show-options", scope_args(scope) + option_pair("-t", target))
}

/// Builds the command that shows the indexed options of a scope.
pub fn show_sparse_options_command(scope: OptionScope, target: Option<&str>) -> (r: Command)
    ensures
        r@ == show_sparse_spec(scope, str_opt(target)),
{
    let t = str_text(target);
    let base = push_scope(Command::new("show-options"), scope);
    assert(base@.arguments =~= scope_args(scope));
    base.option_text("-t", &t)
}

/// `set-option` for a scope, appending when asked.
pub open spec fn set_option_spec(scope: OptionScope, target: Option<Seq<u8>>, name: Seq<char>, value: Seq<u8>, append: bool) -> CommandView {
    command_with("set-option", scope_args(scope) + flag_if(append, "-a") + option_pair("-t", target)
        + seq![plain_bytes(encode_utf8(name)), plain_bytes(value)])
}

/// Builds the command that sets an option; the name must be acceptable.
pub fn set_option_command(scope: OptionScope, target: Option<&str>, name: &str, value: &OptionValue, append: bool) -> (r: Result<Command, Error>)
    ensures
        valid_name(name@) ==> (r matches Ok(c) && c@ == set_option_spec(scope, str_opt(target), name@, option_bytes(value@), append)),
        !valid_name(name@) ==> (r matches Err(e) && e@ == invalid_name("option name")),
{
    match validate_name("option name", name) {
        Err(e) => Err(e),
        Ok(()) => {
            let t = str_text(target);
            let base = push_scope(Command::new("set-option"), scope);
            assert(base@.arguments =~= scope_args(scope));
            let c = base.flag(append, "-a").option_text("-t", &t).arg_text(TmuxText::from_str(name)).arg_text(value.to_os_string());
            assert(c@.arguments =~= set_option_spec(scope, str_opt(target), name@, option_bytes(value@), append).arguments);
            Ok(c)
        },
    }
}

/// `set-option -u` for a scope.
pub open spec fn unset_option_spec(scope: OptionScope, target: Option<Seq<u8>>, name: Seq<char>) -> CommandView {
    command_with("set-option", scope_args(scope) + seq![plain("-u")] + option_pair("-t", target) + seq![plain_bytes(encode_utf8(name))])
}

/// Builds the command that unsets an option; the name must be acceptable.
pub fn unset_option_command(scope: OptionScope, target: Option<&str>, name: &str) -> (r: Result<Command, Error>)
    ensures
        valid_name(name@) ==> (r matches Ok(c) && c@ == unset_option_spec(scope, str_opt(target), name@)),
        !valid_name(name@) ==> (r matches Err(e) && e@ == invalid_name("option name")),
{
    match validate_name("option name", name) {
        Err(e) => Err(e),
        Ok(()) => {
            let t = str_text(target);
            let base = push_scope(Command::new("set-option"), scope);
            assert(base@.arguments =~= scope_args(scope));
            let c = base.arg("-u").option_text("-t", &t).arg_text(TmuxText::from_str(name));
            assert(c@.arguments =~= unset_option_spec(scope, str_opt(target), name@).arguments);
            Ok(c)
        },
    }
}

/// `set-environment -g` with optional format expansion and hidden storage; the value is hidden in diagnostics.
pub open spec fn set_environment_spec(name: Seq<char>, value: Seq<u8>, expand_formats: bool, hidden: bool) -> CommandView {
    command_with("set-environment", seq![plain("-g")] + flag_if(expand_formats, "-F") + flag_if(hidden, "-h")
        + seq![plain_bytes(encode_utf8(name)), (value, true)])
}

/// Builds the command that sets a global environment variable.
pub fn set_environment_command(name: &str, value: TmuxText, expand_formats: bool, hidden: bool) -> (r: Result<Command, Error>)
    ensures
        valid_name(name@) ==> (r matches Ok(c) && c@ == set_environment_spec(name@, value@, expand_formats, hidden)),
        !valid_name(name@) ==> (r matches Err(e) && e@ == invalid_name("environment name")),
{
    match validate_name("environment name", name) {
        Err(e) => Err(e),
        Ok(()) => {
            let base = Command::new("set-environment").arg("-g");
            assert(base@.arguments =~= seq![plain("-g")]);
            let ghost v = value@;
            let c = base.flag(expand_formats, "-F").flag(hidden, "-h").arg_text(TmuxText::from_str(name)).sensitive_arg_text(value);
            assert(c@.arguments =~= set_environment_spec(name@, v, expand_formats, hidden).arguments);
            Ok(c)
        },
    }
}

/// `set-environment -g` with one mode flag and a name.
pub open spec fn environment_flag_spec(flag: &str, name: Seq<char>) -> CommandView {
    command_with("set-environment", seq![plain("-g"), plain(flag), plain_bytes(encode_utf8(name))])
}

/// Builds the command that unsets (`-u`) or removes (`-r`) a global environment variable.
pub fn environment_flag_command(flag: &str, name: &str) -> (r: Result<Command, Error>)
    ensures
        valid_name(name@) ==> (r matches Ok(c) && c@ == environment_flag_spec(flag, name@)),
        !valid_name(name@) ==> (r matches Err(e) && e@ == invalid_name("environment name")),
{
    match validate_name("environment name", name) {
        Err(e) => Err(e),
        Ok(()) => {
            let c = Command::new("set-environment").arg("-g").arg(flag).arg_text(TmuxText::from_str(name));
            assert(c@.arguments =~= environment_flag_spec(flag, name@).arguments);
            Ok(c)
        },
    }
}

/// `has-session -t =NAME`, which matches the name exactly.
pub open spec fn has_session_spec(name: Seq<char>) -> CommandView {
    command_with("has-session", seq![plain("-t"), plain_bytes(encode_utf8(seq!['='] + name))])
}

/// Builds the command that asks whether a session with exactly this name exists.
pub fn has_session_command(name: &SessionName) -> (r: Command)
    ensures
        r@ == has_session_spec(name@),
{
    let mut target = String::new();
    crate::text::push_char(&mut target, '=');
    append_str(&mut target, name.as_str());
    assert(target@ =~= seq!['='] + name@);
    let c = Command::new("has-session").arg("-t").arg_text(TmuxText::from_string(target));
    assert(c@.arguments =~= has_session_spec(name@).arguments);
    c
}

/// `source-file` with its optional quiet, parse-only and verbose flags.
pub open spec fn source_file_spec(path: Seq<u8>, quiet: bool, parse_only: bool, verbose: bool) -> CommandView {
    command_with("source-file", flag_if(quiet, "-q") + flag_if(parse_only, "-n") + flag_if(verbose, "-v") + seq![plain_bytes(path)])
}

/// Builds the command that sources a configuration file.
pub fn source_file_command(path: TmuxText, quiet: bool, parse_only: bool, verbose: bool) -> (r: Command)
    ensures
        r@ == source_file_spec(path@, quiet, parse_only, verbose),
{
    let ghost p = path@;
    let base = Command::new("source-file").flag(quiet, "-q");
    assert(base@.arguments =~= flag_if(quiet, "-q"));
    base.flag(parse_only, "-n").flag(verbose, "-v").arg_text(path)
}

/// `attach-session`, read-only when asked, for a session target.
pub open spec fn attach_spec(target: SessionTargetView, read_only: bool) -> CommandView {
    command_with("attach-session", flag_if(read_only, "-r") + seq![plain("-t"), plain_bytes(encode_utf8(session_target_text(target)))])
}

/// Builds the command that attaches an interactive client.
pub fn attach_command(target: &SessionTarget, read_only: bool) -> (r: Command)
    ensures
        r@ == attach_spec(target@, read_only),
{
    let base = Command::new("attach-session").flag(read_only, "-r");
    assert(base@.arguments =~= flag_if(read_only, "-r"));
    let c = base.arg("-t").arg_text(target.to_text());
    assert(c@.arguments =~= attach_spec(target@, read_only).arguments);
    c
}


proof fn lemma_first_byte_after(name: Seq<u8>, b: u8, rest: Seq<u8>)
    requires
        !name.contains(b),
    ensures
        first_byte(name + seq![b] + rest, b) == Some(name.len() as int),
    decreases name.len(),
{
    let line = name + seq![b] + rest;
    if name.len() == 0 {
        assert(line[0] == b);
    } else {
        assert(name[0] != b);
        assert(line[0] == name[0]);
        assert(!name.drop_first().contains(b)) by {
            if name.drop_first().contains(b) {
                let k = choose|k: int| 0 <= k < name.drop_first().len() && name.drop_first()[k] == b;
                assert(name[k + 1] == b);
            }
        }
        lemma_first_byte_after(name.drop_first(), b, rest);
        assert(line.drop_first() =~= name.drop_first() + seq![b] + rest);
    }
}

/// An environment line `NAME=VALUE` splits at its first `=`: the value keeps
/// every later `=`, provided the name is UTF-8, holds no `=` and does not
/// start with `-`.
pub proof fn law_env_line_first_equals(name: Seq<u8>, value: Seq<u8>)
    requires
        valid_utf8(name),
        !name.contains(61u8),
        name.len() == 0 || name[0] != 45u8,
    ensures
        env_line(name + seq![61u8] + value) == Ok::<(Seq<char>, Option<Seq<u8>>), EnvFailure>((decode_utf8(name), Some(value))),
{
    let line = name + seq![61u8] + value;
    lemma_first_byte_after(name, 61u8, value);
    if name.len() == 0 {
        assert(line[0] == 61u8);
    } else {
        assert(line[0] == name[0]);
    }
    assert(line.take(name.len() as int) =~= name);
    assert(line.skip(name.len() as int + 1) =~= value);
}

/// An environment line `-NAME` marks the variable removed.
pub proof fn law_env_line_removed(name: Seq<u8>)
    requires
        valid_utf8(name),
    ensures
        env_line(seq![45u8] + name) == Ok::<(Seq<char>, Option<Seq<u8>>), EnvFailure>((decode_utf8(name), None)),
{
    assert((seq![45u8] + name).drop_first() =~= name);
}


/// A command timeout, given as whole seconds and nanoseconds, must be
/// greater than zero.
pub fn check_timeout(secs: u64, nanos: u32) -> (r: Result<(), Error>)
    ensures
        secs > 0 || nanos > 0 ==> r is Ok,
        secs == 0 && nanos == 0 ==> (r matches Err(e) && e@ == invalid_argument("timeout", "must be greater than zero")),
{
    if secs == 0 && nanos == 0 {
        return Err(invalid_argument_error("timeout", "must be greater than zero"));
    }
    Ok(())
}

impl Default for Socket {
    /// tmux's default socket.
    fn default() -> (r: Self)
        ensures
            r matches Socket::Default,
    {
        Socket::Default
    }
}

/// The new-session arguments after the names.
#[verifier::opaque]
spec fn new_session_rest(o: NewSessionView) -> Seq<(Seq<u8>, bool)> {
    option_pair("-c", o.cwd)
        + size_args(o.size)
        + option_pair("-t", session_target_bytes(o.group))
        + env_args(o.environment)
        + hidden_opt(o.shell_command)
}

/// The new-session arguments before the names.
#[verifier::opaque]
spec fn new_session_head(o: NewSessionView) -> Seq<(Seq<u8>, bool)> {
    seq![plain("-P"), plain("-F"), plain("#{session_id}")] + flag_if(o.detached, "-d") + flag_if(o.attach_if_exists, "-A")
}

/// The names' arguments.
#[verifier::opaque]
spec fn new_session_names(o: NewSessionView) -> Seq<(Seq<u8>, bool)> {
    option_pair("-s", name_bytes(o.name)) + option_pair("-n", o.window_name)
}

proof fn lemma_new_session_parts(o: NewSessionView)
    ensures
        new_session_spec(o).arguments == new_session_head(o) + new_session_names(o) + new_session_rest(o),
{
    reveal(new_session_rest);
    reveal(new_session_head);
    reveal(new_session_names);
    let h = new_session_head(o);
    let s = option_pair("-s", name_bytes(o.name));
    let n = option_pair("-n", o.window_name);
    let c = option_pair("-c", o.cwd);
    let z = size_args(o.size);
    let g = option_pair("-t", session_target_bytes(o.group));
    let e = env_args(o.environment);
    let x = hidden_opt(o.shell_command);
    lemma_regroup(h, s, n, c, z, g, e, x);
}

/// Regrouping a left-nested concatenation after its head and two parts.
proof fn lemma_regroup<A>(head: Seq<A>, p1: Seq<A>, p2: Seq<A>, p3: Seq<A>, p4: Seq<A>, p5: Seq<A>, p6: Seq<A>, p7: Seq<A>)
    ensures
        head + p1 + p2 + p3 + p4 + p5 + p6 + p7 == head + (p1 + p2) + (p3 + p4 + p5 + p6 + p7),
{
    assert(head + p1 + p2 + p3 + p4 + p5 + p6 + p7 =~= head + (p1 + p2) + (p3 + p4 + p5 + p6 + p7));
}

/// The names of a new session: the command asks tmux to print the new
/// session's ID, then takes the detach and attach flags; a session name adds
/// exactly `-s` and the name's UTF-8 bytes right after those, a first-window
/// name adds exactly `-n` and its bytes after the session name, and the rest
/// of the command stays as it was.
#[verifier::spinoff_prover]
pub proof fn law_new_session_names(o: NewSessionView, name: Seq<char>, window: Seq<u8>)
    requires
        o.name is None,
        o.window_name is None,
    ensures
        new_session_spec(o).subcommand == "new-session".spec_bytes(),
        new_session_spec(o).arguments.take(3) == seq![plain("-P"), plain("-F"), plain("#{session_id}")],
        ({
            let a = new_session_spec(o).arguments;
            let k: int = (3 + flag_if(o.detached, "-d").len() + flag_if(o.attach_if_exists, "-A").len()) as int;
            &&& new_session_spec(NewSessionView { name: Some(name), ..o }).arguments
                == a.take(k) + seq![plain("-s"), plain_bytes(encode_utf8(name))] + a.skip(k)
            &&& new_session_spec(NewSessionView { window_name: Some(window), ..o }).arguments
                == a.take(k) + seq![plain("-n"), plain_bytes(window)] + a.skip(k)
            &&& new_session_spec(NewSessionView { name: Some(name), window_name: Some(window), ..o }).arguments
                == a.take(k) + seq![plain("-s"), plain_bytes(encode_utf8(name)), plain("-n"), plain_bytes(window)] + a.skip(k)
        }),
{
    let named = NewSessionView { name: Some(name), ..o };
    let windowed = NewSessionView { window_name: Some(window), ..o };
    let both = NewSessionView { name: Some(name), window_name: Some(window), ..o };
    lemma_new_session_parts(o);
    lemma_new_session_parts(named);
    lemma_new_session_parts(windowed);
    lemma_new_session_parts(both);
    let h = new_session_head(o);
    let r = new_session_rest(o);
    let k: int = (3 + flag_if(o.detached, "-d").len() + flag_if(o.attach_if_exists, "-A").len()) as int;
    let sp = seq![plain("-s"), plain_bytes(encode_utf8(name))];
    let np = seq![plain("-n"), plain_bytes(window)];
    assert(new_session_head(named) == h && new_session_head(windowed) == h && new_session_head(both) == h
        && h.len() == k && h.take(3) == seq![plain("-P"), plain("-F"), plain("#{session_id}")]) by {
        reveal(new_session_head);
        assert(h.take(3) =~= seq![plain("-P"), plain("-F"), plain("#{session_id}")]);
    }
    assert(new_session_rest(named) == r && new_session_rest(windowed) == r && new_session_rest(both) == r) by {
        reveal(new_session_rest);
    }
    assert(new_session_names(o) == Seq::<(Seq<u8>, bool)>::empty() && new_session_names(named) == sp
        && new_session_names(windowed) == np && new_session_names(both) == sp + np) by {
        reveal(new_session_names);
        assert(new_session_names(o) =~= Seq::<(Seq<u8>, bool)>::empty());
        assert(new_session_names(named) =~= sp);
        assert(new_session_names(windowed) =~= np);
    }
    let a = new_session_spec(o).arguments;
    assert(a =~= h + r);
    assert(a.take(k) =~= h);
    assert(a.skip(k) =~= r);
    assert(a.take(3) =~= seq![plain("-P"), plain("-F"), plain("#{session_id}")]);
    assert(new_session_spec(named).arguments =~= h + sp + r);
    assert(new_session_spec(windowed).arguments =~= h + np + r);
    assert(new_session_spec(both).arguments =~= h + (sp + np) + r);
    assert(sp + np =~= seq![plain("-s"), plain_bytes(encode_utf8(name)), plain("-n"), plain_bytes(window)]);
}

/// The argument groups of a new-session command, in order.
#[verifier::opaque]
spec fn new_session_groups(o: NewSessionView) -> Seq<Seq<(Seq<u8>, bool)>> {
    seq![
        seq![plain("-P"), plain("-F"), plain("#{session_id}")],
        flag_if(o.detached, "-d"),
        flag_if(o.attach_if_exists, "-A"),
        option_pair("-s", name_bytes(o.name)),
        option_pair("-n", o.window_name),
        option_pair("-c", o.cwd),
        size_args(o.size),
        option_pair("-t", session_target_bytes(o.group)),
        env_args(o.environment),
        hidden_opt(o.shell_command),
    ]
}

proof fn lemma_new_session_groups(o: NewSessionView)
    ensures
        new_session_spec(o).arguments == concat_groups(new_session_groups(o)),
{
    reveal(new_session_groups);
    let g = new_session_groups(o);
    let e = Seq::<Seq<(Seq<u8>, bool)>>::empty();
    assert(concat_groups(e) == Seq::<(Seq<u8>, bool)>::empty());
    lemma_concat_groups_push(e, g[0]);
    lemma_concat_groups_push(e.push(g[0]), g[1]);
    lemma_concat_groups_push(e.push(g[0]).push(g[1]), g[2]);
    lemma_concat_groups_push(e.push(g[0]).push(g[1]).push(g[2]), g[3]);
    lemma_concat_groups_push(e.push(g[0]).push(g[1]).push(g[2]).push(g[3]), g[4]);
    lemma_concat_groups_push(e.push(g[0]).push(g[1]).push(g[2]).push(g[3]).push(g[4]), g[5]);
    lemma_concat_groups_push(e.push(g[0]).push(g[1]).push(g[2]).push(g[3]).push(g[4]).push(g[5]), g[6]);
    lemma_concat_groups_push(e.push(g[0]).push(g[1]).push(g[2]).push(g[3]).push(g[4]).push(g[5]).push(g[6]), g[7]);
    lemma_concat_groups_push(e.push(g[0]).push(g[1]).push(g[2]).push(g[3]).push(g[4]).push(g[5]).push(g[6]).push(g[7]), g[8]);
    lemma_concat_groups_push(e.push(g[0]).push(g[1]).push(g[2]).push(g[3]).push(g[4]).push(g[5]).push(g[6]).push(g[7]).push(g[8]), g[9]);
    assert(g =~= e.push(g[0]).push(g[1]).push(g[2]).push(g[3]).push(g[4]).push(g[5]).push(g[6]).push(g[7]).push(g[8]).push(g[9]));
    assert(Seq::<(Seq<u8>, bool)>::empty() + g[0] =~= g[0]);
}

proof fn lemma_new_session_fill(off: NewSessionView, on: NewSessionView, i: int, added: Seq<(Seq<u8>, bool)>)
    requires
        0 <= i < new_session_groups(off).len(),
        new_session_groups(off)[i].len() == 0,
        new_session_groups(on) == new_session_groups(off).update(i, added),
    ensures
        inserts(new_session_spec(off).arguments, new_session_spec(on).arguments, added),
{
    lemma_new_session_groups(off);
    lemma_new_session_groups(on);
    lemma_fill_group(new_session_groups(off), i, added);
}

/// Starting a session detached puts in exactly `-d`, the rest of the
/// new-session command staying as it was.
#[verifier::spinoff_prover]
pub proof fn law_new_session_detached(o: NewSessionView)
    requires
        !o.detached,
    ensures
        inserts(new_session_spec(o).arguments, new_session_spec(NewSessionView { detached: true, ..o }).arguments, seq![plain("-d")]),
{
    let on = NewSessionView { detached: true, ..o };
    assert(new_session_groups(on) =~= new_session_groups(o).update(1, seq![plain("-d")])
        && new_session_groups(o)[1].len() == 0 && new_session_groups(o).len() == 10) by {
        reveal(new_session_groups);
    }
    lemma_new_session_fill(o, on, 1, seq![plain("-d")]);
}

/// Attaching to an existing session of that name puts in exactly `-A`, the
/// rest of the new-session command staying as it was.
#[verifier::spinoff_prover]
pub proof fn law_new_session_attach_if_exists(o: NewSessionView)
    requires
        !o.attach_if_exists,
    ensures
        inserts(new_session_spec(o).arguments, new_session_spec(NewSessionView { attach_if_exists: true, ..o }).arguments, seq![plain("-A")]),
{
    let on = NewSessionView { attach_if_exists: true, ..o };
    assert(new_session_groups(on) =~= new_session_groups(o).update(2, seq![plain("-A")])
        && new_session_groups(o)[2].len() == 0 && new_session_groups(o).len() == 10) by {
        reveal(new_session_groups);
    }
    lemma_new_session_fill(o, on, 2, seq![plain("-A")]);
}

/// Naming the session puts in exactly `-s` and the name's UTF-8 bytes, the
/// rest of the new-session command staying as it was.
#[verifier::spinoff_prover]
pub proof fn law_new_session_name(o: NewSessionView, name: Seq<char>)
    requires
        o.name is None,
    ensures
        inserts(new_session_spec(o).arguments, new_session_spec(NewSessionView { name: Some(name), ..o }).arguments, seq![plain("-s"), plain_bytes(encode_utf8(name))]),
{
    let on = NewSessionView { name: Some(name), ..o };
    assert(new_session_groups(on) =~= new_session_groups(o).update(3, seq![plain("-s"), plain_bytes(encode_utf8(name))])
        && new_session_groups(o)[3].len() == 0 && new_session_groups(o).len() == 10) by {
        reveal(new_session_groups);
    }
    lemma_new_session_fill(o, on, 3, seq![plain("-s"), plain_bytes(encode_utf8(name))]);
}

/// Naming the first window puts in exactly `-n` and that name, the rest of
/// the new-session command staying as it was.
#[verifier::spinoff_prover]
pub proof fn law_new_session_window_name(o: NewSessionView, window: Seq<u8>)
    requires
        o.window_name is None,
    ensures
        inserts(new_session_spec(o).arguments, new_session_spec(NewSessionView { window_name: Some(window), ..o }).arguments, seq![plain("-n"), plain_bytes(window)]),
{
    let on = NewSessionView { window_name: Some(window), ..o };
    assert(new_session_groups(on) =~= new_session_groups(o).update(4, seq![plain("-n"), plain_bytes(window)])
        && new_session_groups(o)[4].len() == 0 && new_session_groups(o).len() == 10) by {
        reveal(new_session_groups);
    }
    lemma_new_session_fill(o, on, 4, seq![plain("-n"), plain_bytes(window)]);
}

/// A working directory puts in exactly `-c` and the directory, the rest of
/// the new-session command staying as it was.
#[verifier::spinoff_prover]
pub proof fn law_new_session_directory(o: NewSessionView, directory: Seq<u8>)
    requires
        o.cwd is None,
    ensures
        inserts(new_session_spec(o).arguments, new_session_spec(NewSessionView { cwd: Some(directory), ..o }).arguments, seq![plain("-c"), plain_bytes(directory)]),
{
    let on = NewSessionView { cwd: Some(directory), ..o };
    assert(new_session_groups(on) =~= new_session_groups(o).update(5, seq![plain("-c"), plain_bytes(directory)])
        && new_session_groups(o)[5].len() == 0 && new_session_groups(o).len() == 10) by {
        reveal(new_session_groups);
    }
    lemma_new_session_fill(o, on, 5, seq![plain("-c"), plain_bytes(directory)]);
}

/// Joining a session group puts in exactly `-t` and the group's target, the
/// rest of the new-session command staying as it was.
#[verifier::spinoff_prover]
pub proof fn law_new_session_group(o: NewSessionView, group: SessionTargetView)
    requires
        o.group is None,
    ensures
        inserts(new_session_spec(o).arguments, new_session_spec(NewSessionView { group: Some(group), ..o }).arguments, seq![plain("-t"), plain_bytes(encode_utf8(session_target_text(group)))]),
{
    let on = NewSessionView { group: Some(group), ..o };
    assert(new_session_groups(on) =~= new_session_groups(o).update(7, seq![plain("-t"), plain_bytes(encode_utf8(session_target_text(group)))])
        && new_session_groups(o)[7].len() == 0 && new_session_groups(o).len() == 10) by {
        reveal(new_session_groups);
    }
    lemma_new_session_fill(o, on, 7, seq![plain("-t"), plain_bytes(encode_utf8(session_target_text(group)))]);
}

} // verus!
