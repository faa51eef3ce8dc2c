//! tmux version parsing and capability comparisons.

use vstd::prelude::*;
use core::cmp::Ordering;
use crate::error::{Error, ErrorView};
use crate::numeric::{decimal, decimal_chars, is_digit, parse_unsigned, parse_unsigned_chars, IntErrorKind};
use crate::scan::{
    chars_equal, contains_char, eq_ignore_ascii_case, eq_ignore_ascii_case_chars, find_char, find_char_exec,
    is_ascii_lowercase, slice_chars, starts_with, starts_with_chars, trim, trim_chars, ascii_lower, is_whitespace,
    leading_whitespace, trailing_whitespace,
};
use crate::text::{chars_of, push_char, string_from_chars, append_chars, copy_string};

verus! {

/// A released tmux version, including letter suffixes such as `3.2a`.
#[derive(Clone, Copy, Debug, Eq, Hash, PartialEq, Structural, Ord)]
pub struct ReleaseVersion {
    major: u16,
    minor: u16,
    suffix: Option<char>,
}

/// The mathematical content of a [`ReleaseVersion`].
pub struct ReleaseVersionView {
    pub major: u16,
    pub minor: u16,
    pub suffix: Option<char>,
}

impl View for ReleaseVersion {
    type V = ReleaseVersionView;

    closed spec fn view(&self) -> ReleaseVersionView {
        ReleaseVersionView { major: self.major, minor: self.minor, suffix: self.suffix }
    }
}

/// Orders optional suffixes: no suffix comes before any letter, letters by code point.
pub open spec fn suffix_lt(a: Option<char>, b: Option<char>) -> bool {
    match (a, b) {
        (None, Some(_)) => true,
        (Some(x), Some(y)) => x < y,
        _ => false,
    }
}

/// The release order: by major, then minor, then suffix.
pub open spec fn release_lt(a: ReleaseVersionView, b: ReleaseVersionView) -> bool {
    a.major < b.major || (a.major == b.major && (a.minor < b.minor || (a.minor == b.minor && suffix_lt(a.suffix, b.suffix))))
}

impl PartialOrd for ReleaseVersion {
    fn partial_cmp(&self, other: &Self) -> (r: Option<Ordering>) {
        if self.major != other.major {
            return Some(if self.major < other.major { Ordering::Less } else { Ordering::Greater });
        }
        if self.minor != other.minor {
            return Some(if self.minor < other.minor { Ordering::Less } else { Ordering::Greater });
        }
        match (self.suffix, other.suffix) {
            (None, None) => Some(Ordering::Equal),
            (None, Some(_)) => Some(Ordering::Less),
            (Some(_), None) => Some(Ordering::Greater),
            (Some(x), Some(y)) => Some(if x < y {
                Ordering::Less
            } else if x == y {
                Ordering::Equal
            } else {
                Ordering::Greater
            }),
        }
    }
}

impl vstd::std_specs::cmp::PartialOrdSpecImpl for ReleaseVersion {
    open spec fn obeys_partial_cmp_spec() -> bool {
        true
    }

    open spec fn partial_cmp_spec(&self, other: &Self) -> Option<Ordering> {
        if release_lt(self@, other@) {
            Some(Ordering::Less)
        } else if self@ == other@ {
            Some(Ordering::Equal)
        } else {
            Some(Ordering::Greater)
        }
    }
}

/// The display form `major.minor` followed by the suffix letter, if any.
pub open spec fn release_text(v: ReleaseVersionView) -> Seq<char> {
    decimal(v.major as nat) + seq!['.'] + decimal(v.minor as nat) + match v.suffix {
        Some(c) => seq![c],
        None => seq![],
    }
}

/// The number of ASCII digits at the start of `s`.
pub open spec fn leading_digits(s: Seq<char>) -> nat
    decreases s.len(),
{
    if s.len() > 0 && is_digit(s[0]) {
        1 + leading_digits(s.drop_first())
    } else {
        0
    }
}

/// The release described by already-trimmed text `major.minor[letter]`, if it is one.
pub open spec fn parse_release(value: Seq<char>) -> Option<ReleaseVersionView> {
    match find_char(value, '.') {
        None => None,
        Some(dot) => {
            let major = value.take(dot as int);
            let tail = value.skip(dot as int + 1);
            let digits = leading_digits(tail);
            let rest = tail.skip(digits as int);
            if digits == 0 || rest.len() > 1 || (rest.len() == 1 && !is_ascii_lowercase(rest[0])) {
                None
            } else {
                match (parse_unsigned(major, 65535), parse_unsigned(tail.take(digits as int), 65535)) {
                    (Ok(a), Ok(b)) => Some(ReleaseVersionView {
                        major: a as u16,
                        minor: b as u16,
                        suffix: if rest.len() == 1 { Some(rest[0]) } else { None },
                    }),
                    _ => None,
                }
            }
        },
    }
}

proof fn lemma_leading_digits(s: Seq<char>, k: int)
    requires
        0 <= k <= s.len(),
        forall|i: int| 0 <= i < k ==> is_digit(#[trigger] s[i]),
        k == s.len() || !is_digit(s[k]),
    ensures
        leading_digits(s) == k,
    decreases k,
{
    if k > 0 {
        assert forall|i: int| 0 <= i < k - 1 implies is_digit(#[trigger] s.drop_first()[i]) by {
            assert(s.drop_first()[i] == s[i + 1]);
        }
        lemma_leading_digits(s.drop_first(), k - 1);
    }
}

/// The oldest supported tmux version, 3.2a.
pub open spec fn minimum_release() -> ReleaseVersionView {
    ReleaseVersionView { major: 3, minor: 2, suffix: Some('a') }
}

impl ReleaseVersion {
    /// The oldest supported tmux version.
    pub fn minimum() -> (r: Self)
        ensures
            r@ == minimum_release(),
    {
        ReleaseVersion { major: 3, minor: 2, suffix: Some('a') }
    }

    /// Creates a released version.
    pub fn new(major: u16, minor: u16, suffix: Option<char>) -> (r: Self)
        ensures
            r@ == (ReleaseVersionView { major, minor, suffix }),
    {
        ReleaseVersion { major, minor, suffix }
    }

    /// Returns the major number.
    pub fn major(self) -> (r: u16)
        ensures
            r == self@.major,
    {
        self.major
    }

    /// Returns the minor number.
    pub fn minor(self) -> (r: u16)
        ensures
            r == self@.minor,
    {
        self.minor
    }

    /// Returns the optional letter suffix.
    pub fn suffix(self) -> (r: Option<char>)
        ensures
            r == self@.suffix,
    {
        self.suffix
    }

    /// The version as `major.minor` plus its letter suffix.
    pub fn to_string(&self) -> (r: String)
        ensures
            r@ == release_text(self@),
    {
        let mut chars = decimal_chars(self.major as u64);
        chars.push('.');
        let minor = decimal_chars(self.minor as u64);
        let mut s = string_from_chars(chars.as_slice());
        append_chars(&mut s, minor.as_slice());
        match self.suffix {
            Some(c) => push_char(&mut s, c),
            None => {},
        }
        s
    }

    /// Parses `major.minor[letter]`, ignoring surrounding whitespace.
    pub fn from_str(value: &str) -> (r: Result<Self, Error>)
        ensures
            match parse_release(trim(value@)) {
                Some(v) => r matches Ok(x) && x@ == v,
                None => r matches Err(e) && e@ == ErrorView::InvalidVersion(trim(value@)),
            },
    {
        let all = chars_of(value);
        let trimmed = trim_chars(all.as_slice());
        Self::parse_trimmed(trimmed)
    }

    fn parse_trimmed(value: Vec<char>) -> (r: Result<Self, Error>)
        ensures
            match parse_release(value@) {
                Some(v) => r matches Ok(x) && x@ == v,
                None => r matches Err(e) && e@ == ErrorView::InvalidVersion(value@),
            },
    {
        let dot = match find_char_exec(value.as_slice(), '.') {
            Some(d) => d,
            None => {
                return Err(Error::InvalidVersion(string_from_chars(value.as_slice())));
            },
        };
        assert(dot < value.len());
        let major = slice_chars(value.as_slice(), 0, dot);
        let tail = slice_chars(value.as_slice(), dot + 1, value.len());
        assert(major@ =~= value@.take(dot as int));
        assert(tail@ =~= value@.skip(dot + 1));
        let mut digits: usize = 0;
        while digits < tail.len() && '0' <= tail[digits] && tail[digits] <= '9'
            invariant
                digits <= tail@.len(),
                forall|i: int| 0 <= i < digits ==> is_digit(#[trigger] tail@[i]),
            decreases tail.len() - digits,
        {
            digits = digits + 1;
        }
        proof { lemma_leading_digits(tail@, digits as int); }
        let rest_len = tail.len() - digits;
        let ghost rest = tail@.skip(digits as int);
        assert(rest.len() == rest_len);
        if digits == 0 || rest_len > 1 || (rest_len == 1 && !('a' <= tail[digits] && tail[digits] <= 'z')) {
            return Err(Error::InvalidVersion(string_from_chars(value.as_slice())));
        }
        let minor_digits = slice_chars(tail.as_slice(), 0, digits);
        assert(minor_digits@ =~= tail@.take(digits as int));
        let major_value = parse_unsigned_chars(major.as_slice(), 65535);
        let minor_value = parse_unsigned_chars(minor_digits.as_slice(), 65535);
        match (major_value, minor_value) {
            (Ok(a), Ok(b)) => {
                let suffix = if rest_len == 1 { Some(tail[digits]) } else { None };
                Ok(ReleaseVersion { major: a as u16, minor: b as u16, suffix })
            },
            _ => Err(Error::InvalidVersion(string_from_chars(value.as_slice()))),
        }
    }
}

/// A tmux version reported by `tmux -V`.
#[derive(Debug, Hash)]
pub enum TmuxVersion {
    /// A tagged release.
    Release(ReleaseVersion),
    /// An unreleased development build, which is assumed to have current capabilities.
    Development(String),
}

/// The mathematical content of a [`TmuxVersion`].
pub enum TmuxVersionView {
    Release(ReleaseVersionView),
    Development(Seq<char>),
}

impl View for TmuxVersion {
    type V = TmuxVersionView;

    open spec fn view(&self) -> TmuxVersionView {
        match self {
            TmuxVersion::Release(r) => TmuxVersionView::Release(r@),
            TmuxVersion::Development(s) => TmuxVersionView::Development(s@),
        }
    }
}

impl Clone for TmuxVersion {
    fn clone(&self) -> (r: Self)
        ensures
            r@ == self@,
    {
        match self {
            TmuxVersion::Release(v) => TmuxVersion::Release(*v),
            TmuxVersion::Development(s) => TmuxVersion::Development(copy_string(s)),
        }
    }
}

impl PartialEq for TmuxVersion {
    fn eq(&self, other: &Self) -> (r: bool) {
        match (self, other) {
            (TmuxVersion::Release(a), TmuxVersion::Release(b)) => *a == *b,
            (TmuxVersion::Development(a), TmuxVersion::Development(b)) => {
                let x = chars_of(a.as_str());
                let y = chars_of(b.as_str());
                chars_equal(x.as_slice(), y.as_slice())
            },
            _ => false,
        }
    }
}

impl vstd::std_specs::cmp::PartialEqSpecImpl for TmuxVersion {
    open spec fn obeys_eq_spec() -> bool {
        true
    }

    open spec fn eq_spec(&self, other: &Self) -> bool {
        self@ == other@
    }
}

impl Eq for TmuxVersion {}

/// The characters `tmux ` that prefix `tmux -V` output.
pub open spec fn tmux_prefix() -> Seq<char> {
    seq!['t', 'm', 'u', 'x', ' ']
}

/// The development-build name `master`.
pub open spec fn master_name() -> Seq<char> {
    seq!['m', 'a', 's', 't', 'e', 'r']
}

/// The text after an optional `tmux ` prefix of trimmed `tmux -V` output.
pub open spec fn version_body(value: Seq<char>) -> Seq<char> {
    let raw = trim(value);
    if starts_with(raw, tmux_prefix()) {
        raw.skip(5)
    } else {
        raw
    }
}

/// What `TmuxVersion::parse` yields for the output of `tmux -V`: a development
/// build for `master` (in any ASCII case) or any text containing `-`, else the
/// release it names, if it names one.
pub open spec fn parse_tmux_version(value: Seq<char>) -> Result<TmuxVersionView, ErrorView> {
    let version = version_body(value);
    if eq_ignore_ascii_case(version, master_name()) || version.contains('-') {
        Ok(TmuxVersionView::Development(version))
    } else {
        match parse_release(trim(version)) {
            Some(r) => Ok(TmuxVersionView::Release(r)),
            None => Err(ErrorView::InvalidVersion(trim(version))),
        }
    }
}

/// Whether `found` supplies a capability first released in `required`.
pub open spec fn meets_spec(found: TmuxVersionView, required: ReleaseVersionView) -> bool {
    match found {
        TmuxVersionView::Release(v) => !release_lt(v, required),
        TmuxVersionView::Development(_) => true,
    }
}

impl TmuxVersion {
    /// Parses the complete output of `tmux -V`.
    pub fn parse(value: &str) -> (r: Result<Self, Error>)
        ensures
            match parse_tmux_version(value@) {
                Ok(v) => r matches Ok(x) && x@ == v,
                Err(e) => r matches Err(x) && x@ == e,
            },
    {
        let all = chars_of(value);
        let raw = trim_chars(all.as_slice());
        let prefix: Vec<char> = vec!['t', 'm', 'u', 'x', ' '];
        assert(prefix@ =~= tmux_prefix());
        let version = if starts_with_chars(raw.as_slice(), prefix.as_slice()) {
            let v = slice_chars(raw.as_slice(), 5, raw.len());
            assert(v@ =~= raw@.skip(5));
            v
        } else {
            raw
        };
        assert(version@ == version_body(value@));
        let master: Vec<char> = vec!['m', 'a', 's', 't', 'e', 'r'];
        assert(master@ =~= master_name());
        if eq_ignore_ascii_case_chars(version.as_slice(), master.as_slice()) || contains_char(version.as_slice(), '-') {
            return Ok(TmuxVersion::Development(string_from_chars(version.as_slice())));
        }
        let trimmed = trim_chars(version.as_slice());
        match ReleaseVersion::parse_trimmed(trimmed) {
            Ok(r) => Ok(TmuxVersion::Release(r)),
            Err(e) => Err(e),
        }
    }

    /// Returns whether this version supplies a released capability.
    pub fn meets(&self, required: ReleaseVersion) -> (r: bool)
        ensures
            r == meets_spec(self@, required@),
    {
        match self {
            TmuxVersion::Release(found) => !release_lt_exec(*found, required),
            TmuxVersion::Development(_) => true,
        }
    }

    /// Returns an error if this version is older than a capability requirement.
    pub fn require(&self, capability: &'static str, required: ReleaseVersion) -> (r: Result<(), Error>)
        ensures
            meets_spec(self@, required@) ==> r is Ok,
            !meets_spec(self@, required@) ==> (r matches Err(e) && e@ == (ErrorView::Unsupported {
                capability: capability@,
                required: required@,
                found: self@,
            })),
    {
        if self.meets(required) {
            return Ok(());
        }
        Err(Error::Unsupported { capability, required, found: self.clone() })
    }

    /// The version text: the release number, or the development build name.
    pub fn to_string(&self) -> (r: String)
        ensures
            match self@ {
                TmuxVersionView::Release(v) => r@ == release_text(v),
                TmuxVersionView::Development(s) => r@ == s,
            },
    {
        match self {
            TmuxVersion::Release(v) => v.to_string(),
            TmuxVersion::Development(s) => copy_string(s),
        }
    }
}

/// Whether release `a` comes before release `b`.
pub fn release_lt_exec(a: ReleaseVersion, b: ReleaseVersion) -> (r: bool)
    ensures
        r == release_lt(a@, b@),
{
    if a.major != b.major {
        return a.major < b.major;
    }
    if a.minor != b.minor {
        return a.minor < b.minor;
    }
    match (a.suffix, b.suffix) {
        (None, Some(_)) => true,
        (Some(x), Some(y)) => x < y,
        _ => false,
    }
}

/// The release `major.minor` without a letter suffix.
pub open spec fn release_of(major: u16, minor: u16) -> ReleaseVersionView {
    ReleaseVersionView { major, minor, suffix: None }
}

/// The error for a capability that the connected version lacks.
pub open spec fn unsupported(capability: &str, required: ReleaseVersionView, found: TmuxVersionView) -> ErrorView {
    ErrorView::Unsupported { capability: capability@, required, found }
}

/// Whether a gate passes: the capability is not asked for, or the version supplies it.
pub open spec fn gate_passes(version: TmuxVersionView, needed: bool, required: ReleaseVersionView) -> bool {
    !needed || meets_spec(version, required)
}

/// Requires `major.minor` for a capability only when it is asked for.
pub fn gate(version: &TmuxVersion, needed: bool, capability: &'static str, major: u16, minor: u16) -> (r: Result<(), Error>)
    ensures
        gate_passes(version@, needed, release_of(major, minor)) ==> r is Ok,
        !gate_passes(version@, needed, release_of(major, minor)) ==> (r matches Err(e)
            && e@ == unsupported(capability, release_of(major, minor), version@)),
{
    if !needed {
        return Ok(());
    }
    version.require(capability, ReleaseVersion::new(major, minor, None))
}


/// The release order is a strict total order: irreflexive, transitive, and
/// any two distinct releases are ordered one way.
pub proof fn law_release_order(a: ReleaseVersionView, b: ReleaseVersionView, c: ReleaseVersionView)
    ensures
        !release_lt(a, a),
        release_lt(a, b) && release_lt(b, c) ==> release_lt(a, c),
        a == b || release_lt(a, b) || release_lt(b, a),
        !(release_lt(a, b) && release_lt(b, a)),
{
}

/// A version that meets a requirement meets every older one, and a
/// development build meets every requirement.
pub proof fn law_meets_monotone(found: TmuxVersionView, older: ReleaseVersionView, newer: ReleaseVersionView)
    ensures
        meets_spec(found, newer) && !release_lt(newer, older) ==> meets_spec(found, older),
        found is Development ==> meets_spec(found, newer),
{
}


/// Writing a release as text and parsing that text gives the release back,
/// provided its suffix, if any, is a lowercase ASCII letter.
pub proof fn law_release_text_round_trip(v: ReleaseVersionView)
    requires
        v.suffix matches Some(c) ==> is_ascii_lowercase(c),
    ensures
        parse_release(release_text(v)) == Some(v),
{
    let dm = decimal(v.major as nat);
    let dn = decimal(v.minor as nat);
    let sfx: Seq<char> = match v.suffix {
        Some(c) => seq![c],
        None => seq![],
    };
    let text = release_text(v);
    crate::numeric::lemma_decimal_digits(v.major as nat);
    crate::numeric::lemma_decimal_digits(v.minor as nat);
    assert(text =~= dm + seq!['.'] + dn + sfx);
    assert forall|i: int| 0 <= i < dm.len() implies #[trigger] text[i] != '.' by {
        assert(text[i] == dm[i]);
        assert(is_digit(dm[i]));
    }
    assert(text[dm.len() as int] == '.');
    crate::scan::lemma_find_char(text, '.', dm.len() as int);
    let tail = text.skip(dm.len() as int + 1);
    assert(tail =~= dn + sfx);
    assert(text.take(dm.len() as int) =~= dm);
    assert forall|i: int| 0 <= i < dn.len() implies is_digit(#[trigger] tail[i]) by {
        assert(tail[i] == dn[i]);
        assert(is_digit(dn[i]));
    }
    if v.suffix is Some {
        assert(tail[dn.len() as int] == v.suffix->0);
    }
    lemma_leading_digits(tail, dn.len() as int);
    assert(tail.skip(dn.len() as int) =~= sfx);
    assert(tail.take(dn.len() as int) =~= dn);
    crate::numeric::lemma_unsigned_round_trip(v.major as nat, 65535);
    crate::numeric::lemma_unsigned_round_trip(v.minor as nat, 65535);
}


/// The characters of release text are digits, the dot, or its suffix letter.
proof fn lemma_release_text_chars(v: ReleaseVersionView)
    requires
        v.suffix matches Some(c) ==> is_ascii_lowercase(c),
    ensures
        release_text(v).len() >= 3,
        is_digit(release_text(v)[0]),
        is_digit(release_text(v).last()) || is_ascii_lowercase(release_text(v).last()),
        forall|i: int| 0 <= i < release_text(v).len() ==> {
            let c = #[trigger] release_text(v)[i];
            is_digit(c) || c == '.' || is_ascii_lowercase(c)
        },
{
    let dm = decimal(v.major as nat);
    let dn = decimal(v.minor as nat);
    let sfx: Seq<char> = match v.suffix {
        Some(c) => seq![c],
        None => seq![],
    };
    let text = release_text(v);
    crate::numeric::lemma_decimal_digits(v.major as nat);
    crate::numeric::lemma_decimal_digits(v.minor as nat);
    assert(text =~= dm + seq!['.'] + dn + sfx);
    assert(text[0] == dm[0]);
    assert forall|i: int| 0 <= i < text.len() implies {
        let c = #[trigger] text[i];
        is_digit(c) || c == '.' || is_ascii_lowercase(c)
    } by {
        if i < dm.len() {
            assert(text[i] == dm[i]);
            assert(is_digit(dm[i]));
        } else if i == dm.len() {
        } else if i < dm.len() + 1 + dn.len() {
            assert(text[i] == dn[i - dm.len() - 1]);
            assert(is_digit(dn[i - dm.len() - 1]));
        } else {
            assert(text[i] == sfx[i - dm.len() - 1 - dn.len()]);
        }
    }
    if v.suffix is None {
        assert(text.last() == dn.last());
        assert(is_digit(dn[dn.len() - 1]));
    }
}

/// Text that starts and ends with a digit or letter is its own trim.
proof fn lemma_trim_unchanged(s: Seq<char>)
    requires
        s.len() > 0,
        is_digit(s[0]) || is_ascii_lowercase(s[0]) || s[0] == 't',
        is_digit(s.last()) || is_ascii_lowercase(s.last()),
    ensures
        trim(s) == s,
{
    assert(!is_whitespace(s[0]));
    assert(leading_whitespace(s) == 0);
    assert(s.skip(0) =~= s);
    assert(!is_whitespace(s.last()));
    assert(trailing_whitespace(s) == 0);
    assert(s.take(s.len() as int) =~= s);
}

/// The `tmux -V` output for a release parses back to that release, provided
/// its suffix, if any, is a lowercase ASCII letter.
pub proof fn law_tmux_version_round_trip(v: ReleaseVersionView)
    requires
        v.suffix matches Some(c) ==> is_ascii_lowercase(c),
    ensures
        parse_tmux_version(tmux_prefix() + release_text(v)) == Ok::<TmuxVersionView, ErrorView>(TmuxVersionView::Release(v)),
{
    let text = release_text(v);
    let output = tmux_prefix() + text;
    lemma_release_text_chars(v);
    assert(output[0] == 't');
    assert(output.last() == text.last());
    lemma_trim_unchanged(output);
    assert(output.take(5) =~= tmux_prefix());
    assert(output.skip(5) =~= text);
    assert(version_body(output) == text);
    assert(!eq_ignore_ascii_case(text, master_name())) by {
        if text.len() == master_name().len() {
            assert(ascii_lower(text[0]) == text[0]);
            assert(ascii_lower(master_name()[0]) == 'm');
        }
    }
    assert(!text.contains('-')) by {
        if text.contains('-') {
            let k = choose|k: int| 0 <= k < text.len() && text[k] == '-';
            assert(is_digit(text[k]) || text[k] == '.' || is_ascii_lowercase(text[k]));
        }
    }
    lemma_trim_unchanged(text);
    law_release_text_round_trip(v);
}

} // verus!
