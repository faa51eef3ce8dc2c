//! Validated tmux identities and command targets.

use vstd::prelude::*;
use vstd::utf8::encode_utf8;
use crate::error::{Error, ErrorView};
use crate::numeric::{decimal, decimal_chars, parse_unsigned, parse_unsigned_chars, lemma_unsigned_round_trip};
use crate::scan::{contains_char, slice_chars};
use crate::text::{append_chars, append_str, chars_of, copy_string, owned, push_char, string_from_chars, utf8_lossy, TmuxText};

verus! {

/// The text of an identity: its prefix character followed by the decimal number.
pub open spec fn id_text(prefix: char, n: u64) -> Seq<char> {
    seq![prefix] + decimal(n as nat)
}

/// The number an identity's text names, if it is `prefix` followed by a `u64`.
pub open spec fn parse_id(prefix: char, s: Seq<char>) -> Option<u64> {
    if s.len() > 0 && s[0] == prefix {
        match parse_unsigned(s.drop_first(), u64::MAX as nat) {
            Ok(v) => Some(v as u64),
            Err(_) => None,
        }
    } else {
        None
    }
}

/// The error for text that is not an identity of the given kind.
pub open spec fn invalid_id(kind: &str, value: Seq<char>) -> ErrorView {
    ErrorView::InvalidId { kind: kind@, value }
}

/// Rendering an identity and parsing it back gives the same identity.
pub proof fn law_id_round_trip(prefix: char, n: u64)
    ensures
        parse_id(prefix, id_text(prefix, n)) == Some(n),
{
    lemma_unsigned_round_trip(n as nat, u64::MAX as nat);
    assert(id_text(prefix, n).drop_first() =~= decimal(n as nat));
}

fn prefixed_text(prefix: char, n: u64) -> (r: String)
    ensures
        r@ == id_text(prefix, n),
{
    let digits = decimal_chars(n);
    let mut s = String::new();
    push_char(&mut s, prefix);
    append_chars(&mut s, digits.as_slice());
    assert(s@ =~= id_text(prefix, n));
    s
}

fn parse_prefixed(value: &str, prefix: char, kind: &'static str) -> (r: Result<u64, Error>)
    ensures
        match parse_id(prefix, value@) {
            Some(n) => r == Ok::<u64, Error>(n),
            None => r matches Err(e) && e@ == invalid_id(kind, value@),
        },
{
    let chars = chars_of(value);
    if chars.len() == 0 || chars[0] != prefix {
        return Err(Error::InvalidId { kind, value: owned(value) });
    }
    let digits = slice_chars(chars.as_slice(), 1, chars.len());
    assert(digits@ =~= value@.drop_first());
    match parse_unsigned_chars(digits.as_slice(), u64::MAX) {
        Ok(v) => Ok(v),
        Err(_) => Err(Error::InvalidId { kind, value: owned(value) }),
    }
}

/// A validated tmux session identity (`$N`).
#[derive(Clone, Copy, Debug, Eq, Hash, Ord, PartialEq, PartialOrd, Structural)]
pub struct SessionId(u64);

/// A validated tmux window identity (`@N`).
#[derive(Clone, Copy, Debug, Eq, Hash, Ord, PartialEq, PartialOrd, Structural)]
pub struct WindowId(u64);

/// A validated tmux pane identity (`%N`).
#[derive(Clone, Copy, Debug, Eq, Hash, Ord, PartialEq, PartialOrd, Structural)]
pub struct PaneId(u64);

impl View for SessionId {
    type V = u64;

    closed spec fn view(&self) -> u64 {
        self.0
    }
}

impl View for WindowId {
    type V = u64;

    closed spec fn view(&self) -> u64 {
        self.0
    }
}

impl View for PaneId {
    type V = u64;

    closed spec fn view(&self) -> u64 {
        self.0
    }
}

impl SessionId {
    /// Creates a session identity from its numeric component.
    pub fn new(value: u64) -> (r: Self)
        ensures
            r@ == value,
    {
        SessionId(value)
    }

    /// Returns the numeric component.
    pub fn get(self) -> (r: u64)
        ensures
            r == self@,
    {
        self.0
    }

    /// The identity as tmux writes it, such as `$4`.
    pub fn to_string(&self) -> (r: String)
        ensures
            r@ == id_text('$', self@),
    {
        prefixed_text('$', self.0)
    }

    /// The identity as command-argument bytes.
    pub fn to_text(&self) -> (r: TmuxText)
        ensures
            r@ == encode_utf8(id_text('$', self@)),
    {
        TmuxText::from_string(self.to_string())
    }

    /// Parses `$N`.
    pub fn from_str(value: &str) -> (r: Result<Self, Error>)
        ensures
            match parse_id('$', value@) {
                Some(n) => r matches Ok(id) && id@ == n,
                None => r matches Err(e) && e@ == invalid_id("session", value@),
            },
    {
        match parse_prefixed(value, '$', "session") {
            Ok(n) => Ok(SessionId(n)),
            Err(e) => Err(e),
        }
    }
}

impl WindowId {
    /// Creates a window identity from its numeric component.
    pub fn new(value: u64) -> (r: Self)
        ensures
            r@ == value,
    {
        WindowId(value)
    }

    /// Returns the numeric component.
    pub fn get(self) -> (r: u64)
        ensures
            r == self@,
    {
        self.0
    }

    /// The identity as tmux writes it, such as `@3`.
    pub fn to_string(&self) -> (r: String)
        ensures
            r@ == id_text('@', self@),
    {
        prefixed_text('@', self.0)
    }

    /// The identity as command-argument bytes.
    pub fn to_text(&self) -> (r: TmuxText)
        ensures
            r@ == encode_utf8(id_text('@', self@)),
    {
        TmuxText::from_string(self.to_string())
    }

    /// Parses `@N`.
    pub fn from_str(value: &str) -> (r: Result<Self, Error>)
        ensures
            match parse_id('@', value@) {
                Some(n) => r matches Ok(id) && id@ == n,
                None => r matches Err(e) && e@ == invalid_id("window", value@),
            },
    {
        match parse_prefixed(value, '@', "window") {
            Ok(n) => Ok(WindowId(n)),
            Err(e) => Err(e),
        }
    }
}

impl PaneId {
    /// Creates a pane identity from its numeric component.
    pub fn new(value: u64) -> (r: Self)
        ensures
            r@ == value,
    {
        PaneId(value)
    }

    /// Returns the numeric component.
    pub fn get(self) -> (r: u64)
        ensures
            r == self@,
    {
        self.0
    }

    /// The identity as tmux writes it, such as `%2`.
    pub fn to_string(&self) -> (r: String)
        ensures
            r@ == id_text('%', self@),
    {
        prefixed_text('%', self.0)
    }

    /// The identity as command-argument bytes.
    pub fn to_text(&self) -> (r: TmuxText)
        ensures
            r@ == encode_utf8(id_text('%', self@)),
    {
        TmuxText::from_string(self.to_string())
    }

    /// Parses `%N`.
    pub fn from_str(value: &str) -> (r: Result<Self, Error>)
        ensures
            match parse_id('%', value@) {
                Some(n) => r matches Ok(id) && id@ == n,
                None => r matches Err(e) && e@ == invalid_id("pane", value@),
            },
    {
        match parse_prefixed(value, '%', "pane") {
            Ok(n) => Ok(PaneId(n)),
            Err(e) => Err(e),
        }
    }
}

/// A session name is acceptable when it is non-empty and holds neither `.` nor `:`.
pub open spec fn valid_session_name(s: Seq<char>) -> bool {
    s.len() > 0 && !s.contains('.') && !s.contains(':')
}

/// A validated tmux session name.
#[derive(Debug, Hash, PartialOrd, Ord)]
pub struct SessionName(String);

impl View for SessionName {
    type V = Seq<char>;

    closed spec fn view(&self) -> Seq<char> {
        self.0@
    }
}

impl SessionName {
    /// The validity every session name has.
    #[verifier::type_invariant]
    spec fn wf(&self) -> bool {
        valid_session_name(self.0@)
    }

    /// Validates a session name.
    pub fn new(value: &str) -> (r: Result<Self, Error>)
        ensures
            valid_session_name(value@) ==> (r matches Ok(n) && n@ == value@),
            !valid_session_name(value@) ==> (r matches Err(e) && e@ == ErrorView::InvalidSessionName(value@)),
    {
        Self::from_string(owned(value))
    }

    /// Validates a session name held in a string.
    pub fn from_string(value: String) -> (r: Result<Self, Error>)
        ensures
            valid_session_name(value@) ==> (r matches Ok(n) && n@ == value@),
            !valid_session_name(value@) ==> (r matches Err(e) && e@ == ErrorView::InvalidSessionName(value@)),
    {
        let chars = chars_of(value.as_str());
        if chars.len() == 0 || contains_char(chars.as_slice(), '.') || contains_char(chars.as_slice(), ':') {
            return Err(Error::InvalidSessionName(value));
        }
        Ok(SessionName(value))
    }

    /// Returns the session name.
    pub fn as_str(&self) -> (r: &str)
        ensures
            r@ == self@,
            valid_session_name(self@),
    {
        proof { use_type_invariant(self); }
        self.0.as_str()
    }

    /// Returns the session name as an owned string.
    pub fn to_string(&self) -> (r: String)
        ensures
            r@ == self@,
    {
        copy_string(&self.0)
    }

    /// The name as command-argument bytes.
    pub fn to_text(&self) -> (r: TmuxText)
        ensures
            r@ == encode_utf8(self@),
    {
        TmuxText::from_str(self.0.as_str())
    }
}

impl Clone for SessionName {
    fn clone(&self) -> (r: Self)
        ensures
            r@ == self@,
    {
        proof { use_type_invariant(self); }
        SessionName(copy_string(&self.0))
    }
}

impl PartialEq for SessionName {
    fn eq(&self, other: &Self) -> (r: bool) {
        let a = chars_of(self.0.as_str());
        let b = chars_of(other.0.as_str());
        crate::scan::chars_equal(a.as_slice(), b.as_slice())
    }
}

impl vstd::std_specs::cmp::PartialEqSpecImpl for SessionName {
    open spec fn obeys_eq_spec() -> bool {
        true
    }

    open spec fn eq_spec(&self, other: &Self) -> bool {
        self@ == other@
    }
}

impl Eq for SessionName {}

/// The server-visible name of an attached tmux client.
#[derive(Debug, Hash, PartialOrd, Ord)]
pub struct ClientName(TmuxText);

impl View for ClientName {
    type V = Seq<u8>;

    closed spec fn view(&self) -> Seq<u8> {
        self.0@
    }
}

impl ClientName {
    /// A client name is never empty.
    #[verifier::type_invariant]
    spec fn wf(&self) -> bool {
        self.0@.len() > 0
    }

    /// Creates a client name, rejecting empty values.
    pub fn new(value: TmuxText) -> (r: Result<Self, Error>)
        ensures
            value@.len() > 0 ==> (r matches Ok(n) && n@ == value@),
            value@.len() == 0 ==> (r matches Err(e) && e@ == ErrorView::InvalidArgument {
                argument: "client name"@,
                message: "must not be empty"@,
            }),
    {
        if value.is_empty() {
            return Err(Error::InvalidArgument { argument: "client name", message: owned("must not be empty") });
        }
        Ok(ClientName(value))
    }

    /// Returns the byte-preserving name.
    pub fn as_text(&self) -> (r: &TmuxText)
        ensures
            r@ == self@,
            self@.len() > 0,
    {
        proof { use_type_invariant(self); }
        &self.0
    }

    /// The name as command-argument bytes.
    pub fn to_os_string(&self) -> (r: TmuxText)
        ensures
            r@ == self@,
    {
        self.0.clone()
    }

    /// The name rendered lossily as text.
    pub fn to_string(&self) -> (r: String)
        ensures
            r@ == utf8_lossy(self@),
    {
        self.0.to_string_lossy()
    }
}

impl Clone for ClientName {
    fn clone(&self) -> (r: Self)
        ensures
            r@ == self@,
    {
        proof { use_type_invariant(self); }
        ClientName(self.0.clone())
    }
}

impl PartialEq for ClientName {
    fn eq(&self, other: &Self) -> (r: bool) {
        self.0 == other.0
    }
}

impl vstd::std_specs::cmp::PartialEqSpecImpl for ClientName {
    open spec fn obeys_eq_spec() -> bool {
        true
    }

    open spec fn eq_spec(&self, other: &Self) -> bool {
        self@ == other@
    }
}

impl Eq for ClientName {}

/// A target that identifies a session.
#[derive(Debug, Hash)]
pub enum SessionTarget {
    /// An immutable tmux session ID.
    Id(SessionId),
    /// A session name.
    Name(SessionName),
}

/// The mathematical content of a [`SessionTarget`].
pub enum SessionTargetView {
    Id(u64),
    Name(Seq<char>),
}

impl View for SessionTarget {
    type V = SessionTargetView;

    open spec fn view(&self) -> SessionTargetView {
        match self {
            SessionTarget::Id(id) => SessionTargetView::Id(id@),
            SessionTarget::Name(name) => SessionTargetView::Name(name@),
        }
    }
}

/// The text of a session target: `$N` or the name.
pub open spec fn session_target_text(t: SessionTargetView) -> Seq<char> {
    match t {
        SessionTargetView::Id(n) => id_text('$', n),
        SessionTargetView::Name(s) => s,
    }
}

impl PartialEq for SessionTarget {
    fn eq(&self, other: &Self) -> (r: bool) {
        match (self, other) {
            (SessionTarget::Id(a), SessionTarget::Id(b)) => a.0 == b.0,
            (SessionTarget::Name(a), SessionTarget::Name(b)) => *a == *b,
            _ => false,
        }
    }
}

impl vstd::std_specs::cmp::PartialEqSpecImpl for SessionTarget {
    open spec fn obeys_eq_spec() -> bool {
        true
    }

    open spec fn eq_spec(&self, other: &Self) -> bool {
        self@ == other@
    }
}

impl Eq for SessionTarget {}

impl Clone for SessionTarget {
    fn clone(&self) -> (r: Self)
        ensures
            r@ == self@,
    {
        match self {
            SessionTarget::Id(id) => SessionTarget::Id(*id),
            SessionTarget::Name(name) => SessionTarget::Name(name.clone()),
        }
    }
}

impl SessionTarget {
    /// The target as tmux reads it.
    pub fn to_string(&self) -> (r: String)
        ensures
            r@ == session_target_text(self@),
    {
        match self {
            SessionTarget::Id(id) => id.to_string(),
            SessionTarget::Name(name) => name.to_string(),
        }
    }

    /// The target as command-argument bytes.
    pub fn to_text(&self) -> (r: TmuxText)
        ensures
            r@ == encode_utf8(session_target_text(self@)),
    {
        TmuxText::from_string(self.to_string())
    }
}

/// A session-specific link to a window.
#[derive(Debug, Hash)]
pub struct WindowLink {
    session: SessionTarget,
    index: u32,
}

/// The mathematical content of a [`WindowLink`].
pub struct WindowLinkView {
    pub session: SessionTargetView,
    pub index: u32,
}

impl View for WindowLink {
    type V = WindowLinkView;

    closed spec fn view(&self) -> WindowLinkView {
        WindowLinkView { session: self.session@, index: self.index }
    }
}

/// The text of a window link: `session:index`.
pub open spec fn window_link_text(l: WindowLinkView) -> Seq<char> {
    session_target_text(l.session) + seq![':'] + decimal(l.index as nat)
}

impl Clone for WindowLink {
    fn clone(&self) -> (r: Self)
        ensures
            r@ == self@,
    {
        WindowLink { session: self.session.clone(), index: self.index }
    }
}

impl WindowLink {
    /// Creates a window link target.
    pub fn new(session: SessionTarget, index: u32) -> (r: Self)
        ensures
            r@ == (WindowLinkView { session: session@, index }),
    {
        WindowLink { session, index }
    }

    /// Returns the owning session target.
    pub fn session(&self) -> (r: &SessionTarget)
        ensures
            r@ == self@.session,
    {
        &self.session
    }

    /// Returns the window index in that session.
    pub fn index(&self) -> (r: u32)
        ensures
            r == self@.index,
    {
        self.index
    }

    /// The link as tmux reads it.
    pub fn to_string(&self) -> (r: String)
        ensures
            r@ == window_link_text(self@),
    {
        let mut s = self.session.to_string();
        push_char(&mut s, ':');
        let digits = decimal_chars(self.index as u64);
        append_chars(&mut s, digits.as_slice());
        s
    }

    /// The link as command-argument bytes.
    pub fn to_text(&self) -> (r: TmuxText)
        ensures
            r@ == encode_utf8(window_link_text(self@)),
    {
        TmuxText::from_string(self.to_string())
    }
}

impl PartialEq for WindowLink {
    fn eq(&self, other: &Self) -> (r: bool) {
        if self.index != other.index {
            return false;
        }
        match (&self.session, &other.session) {
            (SessionTarget::Id(a), SessionTarget::Id(b)) => a.0 == b.0,
            (SessionTarget::Name(a), SessionTarget::Name(b)) => *a == *b,
            _ => false,
        }
    }
}

impl vstd::std_specs::cmp::PartialEqSpecImpl for WindowLink {
    open spec fn obeys_eq_spec() -> bool {
        true
    }

    open spec fn eq_spec(&self, other: &Self) -> bool {
        self@ == other@
    }
}

impl Eq for WindowLink {}

/// A target that identifies a window or a window link.
#[derive(Debug, Hash)]
pub enum WindowTarget {
    /// An immutable tmux window ID.
    Id(WindowId),
    /// A window index in a session.
    Link(WindowLink),
}

/// The mathematical content of a [`WindowTarget`].
pub enum WindowTargetView {
    Id(u64),
    Link(WindowLinkView),
}

impl PartialEq for WindowTarget {
    fn eq(&self, other: &Self) -> (r: bool) {
        match (self, other) {
            (WindowTarget::Id(a), WindowTarget::Id(b)) => a.0 == b.0,
            (WindowTarget::Link(a), WindowTarget::Link(b)) => *a == *b,
            _ => false,
        }
    }
}

impl vstd::std_specs::cmp::PartialEqSpecImpl for WindowTarget {
    open spec fn obeys_eq_spec() -> bool {
        true
    }

    open spec fn eq_spec(&self, other: &Self) -> bool {
        self@ == other@
    }
}

impl Eq for WindowTarget {}

impl View for WindowTarget {
    type V = WindowTargetView;

    open spec fn view(&self) -> WindowTargetView {
        match self {
            WindowTarget::Id(id) => WindowTargetView::Id(id@),
            WindowTarget::Link(link) => WindowTargetView::Link(link@),
        }
    }
}

/// The text of a window target: `@N` or `session:index`.
pub open spec fn window_target_text(t: WindowTargetView) -> Seq<char> {
    match t {
        WindowTargetView::Id(n) => id_text('@', n),
        WindowTargetView::Link(l) => window_link_text(l),
    }
}

impl Clone for WindowTarget {
    fn clone(&self) -> (r: Self)
        ensures
            r@ == self@,
    {
        match self {
            WindowTarget::Id(id) => WindowTarget::Id(*id),
            WindowTarget::Link(link) => WindowTarget::Link(link.clone()),
        }
    }
}

impl WindowTarget {
    /// The target as tmux reads it.
    pub fn to_string(&self) -> (r: String)
        ensures
            r@ == window_target_text(self@),
    {
        match self {
            WindowTarget::Id(id) => id.to_string(),
            WindowTarget::Link(link) => link.to_string(),
        }
    }

    /// The target as command-argument bytes.
    pub fn to_text(&self) -> (r: TmuxText)
        ensures
            r@ == encode_utf8(window_target_text(self@)),
    {
        TmuxText::from_string(self.to_string())
    }
}

/// A target that identifies a pane.
#[derive(Clone, Copy, Debug, Eq, Hash, PartialEq, Structural)]
pub enum PaneTarget {
    /// An immutable tmux pane ID.
    Id(PaneId),
}

impl PaneTarget {
    /// The target as tmux reads it.
    pub fn to_string(&self) -> (r: String)
        ensures
            match self {
                PaneTarget::Id(id) => r@ == id_text('%', id@),
            },
    {
        match self {
            PaneTarget::Id(id) => id.to_string(),
        }
    }
}

} // verus!
