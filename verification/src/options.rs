//! Uniform option, hook, and sparse-array representations.

use vstd::prelude::*;
use vstd::utf8::{decode_utf8, encode_utf8, valid_utf8};
use std::collections::BTreeMap;
use crate::error::{Error, ErrorView, OptionErrorKind};
use crate::numeric::{parse_signed, parse_signed_chars, parse_unsigned, parse_unsigned_chars, signed_decimal, signed_decimal_chars};
use crate::scan::slice_chars;
use crate::strmap::{pairs_map, sorted_pairs, StrMap};
use crate::text::{
    append_chars, append_str, chars_of, lemma_map_push, lemma_take_push, nonempty_pieces, owned, push_char, split_nonempty,
    split_on, string_from_chars, utf8_error_text, utf8_str, TmuxText,
};

verus! {

/// The scope used by tmux option commands.
#[derive(Clone, Copy, Debug, Eq, Hash, PartialEq, Structural)]
pub enum OptionScope {
    /// Server-global options (`set-option -s`).
    Server,
    /// Global defaults for session options (`set-option -g`).
    GlobalSession,
    /// Session options.
    Session,
    /// Global defaults for window options (`set-option -gw`).
    GlobalWindow,
    /// Window options (`set-window-option`).
    Window,
    /// Pane options (`set-option -p`).
    Pane,
}

/// The flags that select a scope in `show-options` and `set-option`.
pub open spec fn scope_flags(scope: OptionScope) -> Seq<Seq<char>> {
    match scope {
        OptionScope::Server => seq!["-s"@],
        OptionScope::GlobalSession => seq!["-g"@],
        OptionScope::Session => seq![],
        OptionScope::GlobalWindow => seq!["-g"@, "-w"@],
        OptionScope::Window => seq!["-w"@],
        OptionScope::Pane => seq!["-p"@],
    }
}

impl OptionScope {
    /// The flags that select this scope.
    pub fn show_flags(self) -> (r: Vec<&'static str>)
        ensures
            r@.map_values(|s: &'static str| s@) == scope_flags(self),
    {
        let r: Vec<&'static str> = match self {
            OptionScope::Server => vec!["-s"],
            OptionScope::GlobalSession => vec!["-g"],
            OptionScope::Session => vec![],
            OptionScope::GlobalWindow => vec!["-g", "-w"],
            OptionScope::Window => vec!["-w"],
            OptionScope::Pane => vec!["-p"],
        };
        assert(r@.map_values(|s: &'static str| s@) =~= scope_flags(self));
        r
    }
}

/// A value accepted by tmux's option and environment commands.
#[derive(Debug)]
pub enum OptionValue {
    /// A tmux on/off flag.
    Flag(bool),
    /// A signed numeric value.
    Number(i64),
    /// Byte-preserving textual data.
    Text(TmuxText),
}

/// The mathematical content of an [`OptionValue`].
pub enum OptionValueView {
    Flag(bool),
    Number(i64),
    Text(Seq<u8>),
}

impl View for OptionValue {
    type V = OptionValueView;

    open spec fn view(&self) -> OptionValueView {
        match self {
            OptionValue::Flag(b) => OptionValueView::Flag(*b),
            OptionValue::Number(n) => OptionValueView::Number(*n),
            OptionValue::Text(t) => OptionValueView::Text(t@),
        }
    }
}

impl Clone for OptionValue {
    fn clone(&self) -> (r: Self)
        ensures
            r@ == self@,
    {
        match self {
            OptionValue::Flag(b) => OptionValue::Flag(*b),
            OptionValue::Number(n) => OptionValue::Number(*n),
            OptionValue::Text(t) => OptionValue::Text(t.clone()),
        }
    }
}

impl PartialEq for OptionValue {
    fn eq(&self, other: &Self) -> (r: bool) {
        match (self, other) {
            (OptionValue::Flag(a), OptionValue::Flag(b)) => *a == *b,
            (OptionValue::Number(a), OptionValue::Number(b)) => *a == *b,
            (OptionValue::Text(a), OptionValue::Text(b)) => *a == *b,
            _ => false,
        }
    }
}

impl vstd::std_specs::cmp::PartialEqSpecImpl for OptionValue {
    open spec fn obeys_eq_spec() -> bool {
        true
    }

    open spec fn eq_spec(&self, other: &Self) -> bool {
        self@ == other@
    }
}

impl Eq for OptionValue {}

impl From<bool> for OptionValue {
    fn from(value: bool) -> (r: Self) {
        OptionValue::Flag(value)
    }
}

impl vstd::std_specs::convert::FromSpecImpl<bool> for OptionValue {
    open spec fn obeys_from_spec() -> bool {
        true
    }

    open spec fn from_spec(v: bool) -> OptionValue {
        OptionValue::Flag(v)
    }
}

impl From<i64> for OptionValue {
    fn from(value: i64) -> (r: Self) {
        OptionValue::Number(value)
    }
}

impl vstd::std_specs::convert::FromSpecImpl<i64> for OptionValue {
    open spec fn obeys_from_spec() -> bool {
        true
    }

    open spec fn from_spec(v: i64) -> OptionValue {
        OptionValue::Number(v)
    }
}

impl From<TmuxText> for OptionValue {
    fn from(value: TmuxText) -> (r: Self) {
        OptionValue::Text(value)
    }
}

impl vstd::std_specs::convert::FromSpecImpl<TmuxText> for OptionValue {
    open spec fn obeys_from_spec() -> bool {
        true
    }

    open spec fn from_spec(v: TmuxText) -> OptionValue {
        OptionValue::Text(v)
    }
}

impl From<&str> for OptionValue {
    /// Text holding the string's UTF-8 bytes.
    fn from(value: &str) -> (r: Self)
        ensures
            r@ == OptionValueView::Text(encode_utf8(value@)),
    {
        OptionValue::Text(TmuxText::from_str(value))
    }
}

impl vstd::std_specs::convert::FromSpecImpl<&str> for OptionValue {
    /// Text values are known by their bytes, stated on `from` itself.
    open spec fn obeys_from_spec() -> bool {
        false
    }

    open spec fn from_spec(v: &str) -> OptionValue {
        OptionValue::Flag(false)
    }
}

impl From<String> for OptionValue {
    /// Text holding the string's UTF-8 bytes.
    fn from(value: String) -> (r: Self)
        ensures
            r@ == OptionValueView::Text(encode_utf8(value@)),
    {
        OptionValue::Text(TmuxText::from_string(value))
    }
}

impl vstd::std_specs::convert::FromSpecImpl<String> for OptionValue {
    /// Text values are known by their bytes, stated on `from` itself.
    open spec fn obeys_from_spec() -> bool {
        false
    }

    open spec fn from_spec(v: String) -> OptionValue {
        OptionValue::Flag(false)
    }
}

/// The bytes that tmux receives for a value: `on`/`off`, decimal digits, or the text itself.
pub open spec fn option_bytes(v: OptionValueView) -> Seq<u8> {
    match v {
        OptionValueView::Flag(b) => if b { encode_utf8("on"@) } else { encode_utf8("off"@) },
        OptionValueView::Number(n) => encode_utf8(signed_decimal(n as int)),
        OptionValueView::Text(t) => t,
    }
}

/// The flag that a value denotes: a flag itself, or the text `on`, `1`, `off` or `0`.
pub open spec fn option_flag(v: OptionValueView) -> Option<bool> {
    match v {
        OptionValueView::Flag(b) => Some(b),
        OptionValueView::Text(t) => if t == seq![111u8, 110u8] || t == seq![49u8] {
            Some(true)
        } else if t == seq![111u8, 102u8, 102u8] || t == seq![48u8] {
            Some(false)
        } else {
            None
        },
        OptionValueView::Number(_) => None,
    }
}

/// The number that a value denotes: a number itself, or UTF-8 text that parses as an `i64`.
pub open spec fn option_number(v: OptionValueView) -> Option<i64> {
    match v {
        OptionValueView::Number(n) => Some(n),
        OptionValueView::Text(t) => if valid_utf8(t) {
            match parse_signed(decode_utf8(t), 9223372036854775808, i64::MAX as nat) {
                Ok(n) => Some(n as i64),
                Err(_) => None,
            }
        } else {
            None
        },
        OptionValueView::Flag(_) => None,
    }
}

fn bytes_are(b: &[u8], lit: &[u8]) -> (r: bool)
    ensures
        r == (b@ == lit@),
{
    crate::text::bytes_equal(b, lit)
}

impl OptionValue {
    /// The command-argument bytes of this value.
    pub fn to_os_string(&self) -> (r: TmuxText)
        ensures
            r@ == option_bytes(self@),
    {
        match self {
            OptionValue::Flag(b) => if *b {
                TmuxText::from_str("on")
            } else {
                TmuxText::from_str("off")
            },
            OptionValue::Number(n) => {
                let digits = signed_decimal_chars(*n);
                TmuxText::from_string(string_from_chars(digits.as_slice()))
            },
            OptionValue::Text(t) => t.clone(),
        }
    }

    /// Returns the value as a boolean when tmux encoded a known flag value.
    pub fn as_flag(&self) -> (r: Option<bool>)
        ensures
            r == option_flag(self@),
    {
        match self {
            OptionValue::Flag(b) => Some(*b),
            OptionValue::Text(t) => {
                let b = t.as_bytes();
                let on: [u8; 2] = [111u8, 110u8];
                let one: [u8; 1] = [49u8];
                let off: [u8; 3] = [111u8, 102u8, 102u8];
                let zero: [u8; 1] = [48u8];
                assert(on@ =~= seq![111u8, 110u8]);
                assert(one@ =~= seq![49u8]);
                assert(off@ =~= seq![111u8, 102u8, 102u8]);
                assert(zero@ =~= seq![48u8]);
                if bytes_are(b, on.as_slice()) || bytes_are(b, one.as_slice()) {
                    Some(true)
                } else if bytes_are(b, off.as_slice()) || bytes_are(b, zero.as_slice()) {
                    Some(false)
                } else {
                    None
                }
            },
            OptionValue::Number(_) => None,
        }
    }

    /// Returns a signed number when one is available.
    pub fn as_number(&self) -> (r: Result<Option<i64>, Error>)
        ensures
            r matches Ok(n) && n == option_number(self@),
    {
        match self {
            OptionValue::Number(n) => Ok(Some(*n)),
            OptionValue::Text(t) => match t.to_str() {
                Err(_) => Ok(None),
                Ok(s) => {
                    let chars = chars_of(s);
                    match parse_signed_chars(chars.as_slice(), 9223372036854775808u64, 9223372036854775807u64) {
                        Ok(n) => Ok(Some(n as i64)),
                        Err(_) => Ok(None),
                    }
                },
            },
            OptionValue::Flag(_) => Ok(None),
        }
    }

    /// Returns the byte-preserving textual representation when stored as text.
    pub fn as_text(&self) -> (r: Option<&TmuxText>)
        ensures
            match self@ {
                OptionValueView::Text(t) => r matches Some(x) && x@ == t,
                _ => r is None,
            },
    {
        match self {
            OptionValue::Text(t) => Some(t),
            _ => None,
        }
    }
}

/// The views of the values of a map.
pub open spec fn option_views(m: Map<Seq<char>, OptionValue>) -> Map<Seq<char>, OptionValueView> {
    m.map_values(|v: OptionValue| v@)
}

proof fn lemma_views_insert(m: Map<Seq<char>, OptionValue>, k: Seq<char>, v: OptionValue)
    ensures
        option_views(m.insert(k, v)) == option_views(m).insert(k, v@),
{
    assert(option_views(m.insert(k, v)) =~= option_views(m).insert(k, v@));
}

/// A deterministic map of tmux option names to values, in lexical name order.
#[derive(Clone, Debug)]
pub struct OptionMap(StrMap<OptionValue>);

impl PartialEq for OptionMap {
    fn eq(&self, other: &Self) -> (r: bool) {
        let a = self.0.iter();
        let b = other.0.iter();
        let ghost f = |v: OptionValue| v@;
        let ghost va = self.0.pairs().map_values(|e: (Seq<char>, OptionValue)| (e.0, f(e.1)));
        let ghost vb = other.0.pairs().map_values(|e: (Seq<char>, OptionValue)| (e.0, f(e.1)));
        proof {
            crate::strmap::lemma_viewed_entries(self.0.pairs(), other.0.pairs(), f);
            assert(self@ =~= self.0@.map_values(f));
            assert(other@ =~= other.0@.map_values(f));
        }
        if a.len() != b.len() {
            assert(va.len() != vb.len());
            return false;
        }
        let mut k: usize = 0;
        while k < a.len()
            invariant
                k <= a@.len(),
                a@.len() == b@.len(),
                a@.map_values(|e: (String, OptionValue)| (e.0@, e.1)) == self.0.pairs(),
                b@.map_values(|e: (String, OptionValue)| (e.0@, e.1)) == other.0.pairs(),
                va == self.0.pairs().map_values(|e: (Seq<char>, OptionValue)| (e.0, f(e.1))),
                vb == other.0.pairs().map_values(|e: (Seq<char>, OptionValue)| (e.0, f(e.1))),
                f == (|v: OptionValue| v@),
                forall|j: int| 0 <= j < k ==> va[j] == vb[j],
                (self@ == other@) == (va == vb),
            decreases a.len() - k,
        {
            assert(self.0.pairs()[k as int] == (a@[k as int].0@, a@[k as int].1));
            assert(other.0.pairs()[k as int] == (b@[k as int].0@, b@[k as int].1));
            let same = a[k].0 == b[k].0 && a[k].1 == b[k].1;
            if !same {
                assert(va[k as int] != vb[k as int]);
                return false;
            }
            k = k + 1;
        }
        assert(va =~= vb);
        true
    }
}

impl vstd::std_specs::cmp::PartialEqSpecImpl for OptionMap {
    open spec fn obeys_eq_spec() -> bool {
        true
    }

    open spec fn eq_spec(&self, other: &Self) -> bool {
        self@ == other@
    }
}

impl Eq for OptionMap {}

impl View for OptionMap {
    type V = Map<Seq<char>, OptionValueView>;

    closed spec fn view(&self) -> Map<Seq<char>, OptionValueView> {
        option_views(self.0@)
    }
}

/// The name and value of one line of `show-options` output: the name runs
/// to the first space, the value is everything after that space.
pub open spec fn option_line(line: Seq<u8>) -> (Seq<u8>, Seq<u8>) {
    let split = first_space(line);
    (line.take(split as int), line.skip(if split < line.len() { split + 1 } else { split } as int))
}

/// The index of the first space, or the length when there is none.
pub open spec fn first_space(line: Seq<u8>) -> nat
    decreases line.len(),
{
    if line.len() == 0 {
        0
    } else if line[0] == 32u8 {
        0
    } else {
        1 + first_space(line.drop_first())
    }
}

/// The options that lines of `show-options` output describe, a later line
/// overriding an earlier one; `None` if some name is not UTF-8.
pub open spec fn options_of(lines: Seq<Seq<u8>>) -> Option<Map<Seq<char>, OptionValueView>>
    decreases lines.len(),
{
    if lines.len() == 0 {
        Some(Map::empty())
    } else {
        match options_of(lines.drop_last()) {
            None => None,
            Some(m) => {
                let (name, value) = option_line(lines.last());
                if valid_utf8(name) {
                    Some(m.insert(decode_utf8(name), OptionValueView::Text(value)))
                } else {
                    None
                }
            },
        }
    }
}

/// The options of `show-options` output.
pub open spec fn parsed_options(bytes: Seq<u8>) -> Option<Map<Seq<char>, OptionValueView>> {
    options_of(nonempty_pieces(split_on(bytes, 10u8)))
}

/// An option error of the given kind whose message begins with `prefix`.
pub open spec fn option_error_prefixed(e: ErrorView, kind: OptionErrorKind, prefix: Seq<char>) -> bool {
    e matches ErrorView::Option { kind: k, message: m } && k == kind && prefix.len() <= m.len()
        && m.take(prefix.len() as int) == prefix
}

fn first_space_exec(line: &[u8]) -> (r: usize)
    ensures
        r == first_space(line@),
        r <= line@.len(),
{
    let mut i: usize = 0;
    assert(line@.skip(0) =~= line@);
    while i < line.len()
        invariant
            i <= line@.len(),
            first_space(line@) == i + first_space(line@.skip(i as int)),
        decreases line.len() - i,
    {
        if line[i] == 32u8 {
            return i;
        }
        assert(line@.skip(i as int).drop_first() =~= line@.skip(i + 1));
        i = i + 1;
    }
    i
}

fn bytes_range(s: &[u8], from: usize, to: usize) -> (r: Vec<u8>)
    requires
        from <= to <= s@.len(),
    ensures
        r@ == s@.subrange(from as int, to as int),
{
    vstd::slice::slice_to_vec(vstd::slice::slice_subrange(s, from, to))
}

impl Default for OptionMap {
    /// The same value as `OptionMap::new()`.
    fn default() -> (r: Self)
        ensures
            r@ == Map::<Seq<char>, OptionValueView>::empty(),
    {
        OptionMap::new()
    }
}

impl OptionMap {
    /// Creates an empty map.
    pub fn new() -> (r: Self)
        ensures
            r@ == Map::<Seq<char>, OptionValueView>::empty(),
    {
        let r = OptionMap(StrMap::new());
        assert(r@ =~= Map::<Seq<char>, OptionValueView>::empty());
        r
    }

    /// Returns an option by name.
    pub fn get(&self, name: &str) -> (r: Option<&OptionValue>)
        ensures
            match r {
                Some(v) => self@.contains_key(name@) && v@ == self@[name@],
                None => !self@.contains_key(name@),
            },
    {
        self.0.get(name)
    }

    /// Inserts an option value, returning the value it replaces.
    pub fn insert(&mut self, name: String, value: OptionValue) -> (r: Option<OptionValue>)
        ensures
            final(self)@ == old(self)@.insert(name@, value@),
            match r {
                Some(v) => old(self)@.contains_key(name@) && v@ == old(self)@[name@],
                None => !old(self)@.contains_key(name@),
            },
    {
        proof {
            lemma_views_insert(self.0@, name@, value);
        }
        self.0.insert(name, value)
    }

    /// The entries in lexical option-name order.
    pub fn iter(&self) -> (r: &[(String, OptionValue)])
        ensures
            sorted_pairs(r@.map_values(|e: (String, OptionValue)| (e.0@, e.1))),
            option_views(pairs_map(r@.map_values(|e: (String, OptionValue)| (e.0@, e.1)))) == self@,
    {
        self.0.iter()
    }

    /// Returns the number of entries.
    pub fn len(&self) -> (r: usize)
        ensures
            r == self@.dom().len(),
    {
        assert(self@.dom() =~= self.0@.dom());
        self.0.len()
    }

    /// Returns whether the map is empty.
    pub fn is_empty(&self) -> (r: bool)
        ensures
            r == (self@.dom().len() == 0),
    {
        self.len() == 0
    }

    /// Parses `show-options` output: one `name value` pair per non-empty line.
    pub fn parse(bytes: &[u8]) -> (r: Result<Self, Error>)
        ensures
            match parsed_options(bytes@) {
                Some(m) => r matches Ok(x) && x@ == m,
                None => r matches Err(e) && option_error_prefixed(e@, OptionErrorKind::Parse, "option name is not UTF-8: "@),
            },
    {
        let lines = split_nonempty(bytes, 10u8);
        let ghost lv = lines@.map_values(|v: Vec<u8>| v@);
        let mut map = OptionMap::new();
        let mut i: usize = 0;
        while i < lines.len()
            invariant
                i <= lines@.len(),
                lv == lines@.map_values(|v: Vec<u8>| v@),
                lv == nonempty_pieces(split_on(bytes@, 10u8)),
                options_of(lv.take(i as int)) == Some(map@),
            decreases lines.len() - i,
        {
            let ghost prev = lv.take(i as int);
            let ghost next = lv.take(i as int + 1);
            proof {
                assert(next.drop_last() =~= prev);
                assert(next.last() == lines@[i as int]@);
            }
            let line = lines[i].as_slice();
            let split = first_space_exec(line);
            let start = if split < line.len() { split + 1 } else { split };
            let name_bytes = bytes_range(line, 0, split);
            let value_bytes = bytes_range(line, start, line.len());
            assert(name_bytes@ =~= option_line(line@).0);
            assert(value_bytes@ =~= option_line(line@).1);
            match utf8_str(name_bytes.as_slice()) {
                Err(e) => {
                    let mut message = owned("option name is not UTF-8: ");
                    let tail = utf8_error_text(&e);
                    append_str(&mut message, tail.as_str());
                    proof {
                        assert(options_of(next) is None);
                        lemma_options_none_persists(lv, i as int + 1);
                        assert(("option name is not UTF-8: "@ + tail@).take("option name is not UTF-8: "@.len() as int)
                            =~= "option name is not UTF-8: "@);
                    }
                    return Err(Error::Option { kind: OptionErrorKind::Parse, message });
                },
                Ok(name) => {
                    map.insert(owned(name), OptionValue::Text(TmuxText::new(value_bytes)));
                },
            }
            i = i + 1;
        }
        assert(lv.take(lines@.len() as int) =~= lv);
        Ok(map)
    }
}

proof fn lemma_options_none_persists(lines: Seq<Seq<u8>>, k: int)
    requires
        0 <= k <= lines.len(),
        options_of(lines.take(k)) is None,
    ensures
        options_of(lines) is None,
    decreases lines.len() - k,
{
    if k < lines.len() {
        let next = lines.take(k + 1);
        assert(next.drop_last() =~= lines.take(k));
        lemma_options_none_persists(lines, k + 1);
    } else {
        assert(lines.take(k) =~= lines);
    }
}

/// The views of an indexed value map.
pub open spec fn index_views(m: Map<u32, OptionValue>) -> Map<u32, OptionValueView> {
    m.map_values(|v: OptionValue| v@)
}

/// The views of a sparse map's values.
pub open spec fn sparse_views(m: Map<Seq<char>, BTreeMap<u32, OptionValue>>) -> Map<Seq<char>, Map<u32, OptionValueView>> {
    m.map_values(|b: BTreeMap<u32, OptionValue>| index_views(b@))
}

/// The indexed values stored under `name`, empty when there are none.
pub open spec fn indexes_of(m: Map<Seq<char>, Map<u32, OptionValueView>>, name: Seq<char>) -> Map<u32, OptionValueView> {
    if m.contains_key(name) {
        m[name]
    } else {
        Map::empty()
    }
}

/// Sparse indexed option values such as hooks and `command-alias[]`.
#[derive(Debug)]
pub struct SparseOptionMap(StrMap<BTreeMap<u32, OptionValue>>);

impl View for SparseOptionMap {
    type V = Map<Seq<char>, Map<u32, OptionValueView>>;

    closed spec fn view(&self) -> Map<Seq<char>, Map<u32, OptionValueView>> {
        sparse_views(self.0@)
    }
}

impl Clone for SparseOptionMap {
    /// Copies every base name with the same indexes and values.
    fn clone(&self) -> (r: Self)
        ensures
            r@ == self@,
    {
        proof { use_type_invariant(self); }
        let entries = self.0.clone();
        proof {
            let f = |m: BTreeMap<u32, OptionValue>| index_views(m@);
            let a = self.0.pairs().map_values(|e: (Seq<char>, BTreeMap<u32, OptionValue>)| (e.0, f(e.1)));
            let b = entries.pairs().map_values(|e: (Seq<char>, BTreeMap<u32, OptionValue>)| (e.0, f(e.1)));
            assert forall|i: int| 0 <= i < a.len() implies a[i] == b[i] by {
                assert(entries.pairs()[i].0 == self.0.pairs()[i].0);
            }
            assert(a =~= b);
            crate::strmap::lemma_pairs_map_values(self.0.pairs(), f);
            crate::strmap::lemma_pairs_map_values(entries.pairs(), f);
            assert(sparse_views(self.0@) =~= pairs_map(self.0.pairs()).map_values(f));
            assert(sparse_views(entries@) =~= pairs_map(entries.pairs()).map_values(f));
        }
        SparseOptionMap(entries)
    }
}

/// Every base name holds at least one index.
pub open spec fn sparse_indexes_nonempty(m: Map<Seq<char>, Map<u32, OptionValueView>>) -> bool {
    forall|k: Seq<char>| #[trigger] m.contains_key(k) ==> exists|i: u32| m[k].contains_key(i)
}

impl SparseOptionMap {
    /// A base name is only ever stored together with an index.
    #[verifier::type_invariant]
    spec fn indexes_present(self) -> bool {
        sparse_indexes_nonempty(self@)
    }
}

/// Whether two index maps hold the same indexes with equal values.
fn index_maps_equal(a: &BTreeMap<u32, OptionValue>, b: &BTreeMap<u32, OptionValue>) -> (r: bool)
    ensures
        r == (index_views(a@) == index_views(b@)),
{
    broadcast use vstd::std_specs::btree::group_btree_axioms;
    assert(index_views(a@).dom() =~= a@.dom());
    assert(index_views(b@).dom() =~= b@.dom());
    if a.len() != b.len() {
        return false;
    }
    let ghost items = vstd::std_specs::iter::IteratorSpec::remaining(&vstd::std_specs::btree::spec_btree_map_iter(a));
    for entry in it: a.iter()
        invariant
            a@.len() == b@.len(),
            items == vstd::std_specs::iter::IteratorSpec::remaining(&vstd::std_specs::btree::spec_btree_map_iter(a)),
            it.seq() == items,
            forall|j: int| 0 <= j < it.index() ==> #[trigger] b@.contains_key(*items[j].0)
                && b@[*items[j].0]@ == (*items[j].1)@,
    {
        let ghost at = it.index();
        assert(entry == items[at]);
        let (k, v) = entry;
        match b.get(k) {
            Some(w) => {
                if !(*v == *w) {
                    assert(index_views(a@)[*k] != index_views(b@)[*k]);
                    return false;
                }
            },
            None => {
                assert(!index_views(b@).contains_key(*k));
                return false;
            },
        }
        assert(b@.contains_key(*items[at].0) && b@[*items[at].0]@ == (*items[at].1)@);
    }
    assert forall|k: u32| #[trigger] a@.contains_key(k) implies b@.contains_key(k) && b@[k]@ == a@[k]@ by {
        assert(items.contains((&k, &a@[k])));
        let j = choose|j: int| 0 <= j < items.len() && items[j] == (&k, &a@[k]);
        assert(b@.contains_key(*items[j].0));
    }
    proof {
        vstd::set_lib::lemma_subset_equality(a@.dom(), b@.dom());
        assert(index_views(a@) =~= index_views(b@));
    }
    true
}

impl PartialEq for SparseOptionMap {
    fn eq(&self, other: &Self) -> (r: bool) {
        let a = self.0.iter();
        let b = other.0.iter();
        let ghost f = |m: BTreeMap<u32, OptionValue>| index_views(m@);
        let ghost va = self.0.pairs().map_values(|e: (Seq<char>, BTreeMap<u32, OptionValue>)| (e.0, f(e.1)));
        let ghost vb = other.0.pairs().map_values(|e: (Seq<char>, BTreeMap<u32, OptionValue>)| (e.0, f(e.1)));
        proof {
            crate::strmap::lemma_viewed_entries(self.0.pairs(), other.0.pairs(), f);
            assert(self@ =~= self.0@.map_values(f));
            assert(other@ =~= other.0@.map_values(f));
        }
        if a.len() != b.len() {
            assert(va.len() != vb.len());
            return false;
        }
        let mut k: usize = 0;
        while k < a.len()
            invariant
                k <= a@.len(),
                a@.len() == b@.len(),
                a@.map_values(|e: (String, BTreeMap<u32, OptionValue>)| (e.0@, e.1)) == self.0.pairs(),
                b@.map_values(|e: (String, BTreeMap<u32, OptionValue>)| (e.0@, e.1)) == other.0.pairs(),
                va == self.0.pairs().map_values(|e: (Seq<char>, BTreeMap<u32, OptionValue>)| (e.0, f(e.1))),
                vb == other.0.pairs().map_values(|e: (Seq<char>, BTreeMap<u32, OptionValue>)| (e.0, f(e.1))),
                f == (|m: BTreeMap<u32, OptionValue>| index_views(m@)),
                forall|j: int| 0 <= j < k ==> va[j] == vb[j],
                (self@ == other@) == (va == vb),
            decreases a.len() - k,
        {
            assert(self.0.pairs()[k as int] == (a@[k as int].0@, a@[k as int].1));
            assert(other.0.pairs()[k as int] == (b@[k as int].0@, b@[k as int].1));
            let same = a[k].0 == b[k].0 && index_maps_equal(&a[k].1, &b[k].1);
            if !same {
                assert(va[k as int] != vb[k as int]);
                return false;
            }
            k = k + 1;
        }
        assert(va =~= vb);
        true
    }
}

impl vstd::std_specs::cmp::PartialEqSpecImpl for SparseOptionMap {
    open spec fn obeys_eq_spec() -> bool {
        true
    }

    open spec fn eq_spec(&self, other: &Self) -> bool {
        self@ == other@
    }
}

impl Eq for SparseOptionMap {}

/// The position of the last `[`, if any.
pub open spec fn last_open_bracket(name: Seq<char>) -> Option<int>
    decreases name.len(),
{
    if name.len() == 0 {
        None
    } else if name.last() == '[' {
        Some(name.len() - 1)
    } else {
        last_open_bracket(name.drop_last())
    }
}

/// Folds one option into a sparse map: names without `[` are skipped, others
/// must read `base[index]` with a `u32` index.
pub open spec fn sparse_step(
    acc: Result<Map<Seq<char>, Map<u32, OptionValueView>>, ErrorView>,
    name: Seq<char>,
    value: OptionValueView,
) -> Result<Map<Seq<char>, Map<u32, OptionValueView>>, ErrorView> {
    match acc {
        Err(e) => Err(e),
        Ok(m) => match last_open_bracket(name) {
            None => Ok(m),
            Some(open) => if name.last() != ']' {
                Err(ErrorView::Option { kind: OptionErrorKind::SparseIndex, message: "malformed indexed option `"@ + name + "`"@ })
            } else {
                match parse_unsigned(name.subrange(open + 1, name.len() - 1), u32::MAX as nat) {
                    Ok(index) => Ok(m.insert(name.take(open), indexes_of(m, name.take(open)).insert(index as u32, value))),
                    Err(_) => Err(ErrorView::Option { kind: OptionErrorKind::SparseIndex, message: "invalid index in `"@ + name + "`"@ }),
                }
            },
        },
    }
}

/// Folds options, in order, into a sparse map.
pub open spec fn sparse_of(entries: Seq<(Seq<char>, OptionValueView)>) -> Result<Map<Seq<char>, Map<u32, OptionValueView>>, ErrorView>
    decreases entries.len(),
{
    if entries.len() == 0 {
        Ok(Map::empty())
    } else {
        sparse_step(sparse_of(entries.drop_last()), entries.last().0, entries.last().1)
    }
}

/// The entries of a listing with their values viewed.
pub open spec fn viewed_pairs(s: Seq<(Seq<char>, OptionValue)>) -> Seq<(Seq<char>, OptionValueView)> {
    s.map_values(|e: (Seq<char>, OptionValue)| (e.0, e.1@))
}

proof fn lemma_viewed_pairs(s: Seq<(Seq<char>, OptionValue)>)
    ensures
        pairs_map(viewed_pairs(s)) == option_views(pairs_map(s)),
        sorted_pairs(s) ==> sorted_pairs(viewed_pairs(s)),
    decreases s.len(),
{
    if s.len() > 0 {
        lemma_viewed_pairs(s.drop_last());
        assert(viewed_pairs(s).drop_last() =~= viewed_pairs(s.drop_last()));
        lemma_views_insert(pairs_map(s.drop_last()), s.last().0, s.last().1);
    } else {
        assert(option_views(pairs_map(s)) =~= Map::<Seq<char>, OptionValueView>::empty());
    }
}

proof fn lemma_last_open_bracket(name: Seq<char>)
    ensures
        last_open_bracket(name) matches Some(i) ==> 0 <= i < name.len() && name[i] == '[',
    decreases name.len(),
{
    if name.len() > 0 && name.last() != '[' {
        lemma_last_open_bracket(name.drop_last());
    }
}

fn last_open_bracket_exec(name: &[char]) -> (r: Option<usize>)
    ensures
        match last_open_bracket(name@) {
            Some(i) => r == Some(i as usize),
            None => r is None,
        },
{
    let mut k: usize = name.len();
    assert(name@.take(k as int) =~= name@);
    while k > 0
        invariant
            k <= name@.len(),
            last_open_bracket(name@) == last_open_bracket(name@.take(k as int)),
        decreases k,
    {
        let ghost t = name@.take(k as int);
        assert(t.drop_last() =~= name@.take(k - 1));
        if name[k - 1] == '[' {
            return Some(k - 1);
        }
        k = k - 1;
    }
    None
}

fn quoted_message(head: &str, name: &[char]) -> (r: String)
    ensures
        r@ == head@ + name@ + "`"@,
{
    let mut m = owned(head);
    append_chars(&mut m, name);
    append_str(&mut m, "`");
    m
}

impl Default for SparseOptionMap {
    /// The same value as `SparseOptionMap::new()`.
    fn default() -> (r: Self)
        ensures
            r@ == Map::<Seq<char>, Map<u32, OptionValueView>>::empty(),
    {
        SparseOptionMap::new()
    }
}

impl SparseOptionMap {
    /// Creates an empty sparse map.
    pub fn new() -> (r: Self)
        ensures
            r@ == Map::<Seq<char>, Map<u32, OptionValueView>>::empty(),
    {
        let entries: StrMap<BTreeMap<u32, OptionValue>> = StrMap::new();
        assert(sparse_views(entries@) =~= Map::<Seq<char>, Map<u32, OptionValueView>>::empty());
        SparseOptionMap(entries)
    }

    /// Returns all populated indexes for a base option name.
    pub fn get(&self, name: &str) -> (r: Option<&BTreeMap<u32, OptionValue>>)
        ensures
            match r {
                Some(m) => self@.contains_key(name@) && index_views(m@) == self@[name@]
                    && exists|i: u32| index_views(m@).contains_key(i),
                None => !self@.contains_key(name@),
            },
    {
        proof { use_type_invariant(self); }
        self.0.get(name)
    }

    /// Sets one sparse value, returning the value it replaces.
    pub fn insert(&mut self, name: String, index: u32, value: OptionValue) -> (r: Option<OptionValue>)
        ensures
            final(self)@ == old(self)@.insert(name@, indexes_of(old(self)@, name@).insert(index, value@)),
            match r {
                Some(v) => indexes_of(old(self)@, name@).contains_key(index) && v@ == indexes_of(old(self)@, name@)[index],
                None => !indexes_of(old(self)@, name@).contains_key(index),
            },
    {
        let mut inner: BTreeMap<u32, OptionValue> = match self.0.get(name.as_str()) {
            Some(m) => m.clone(),
            None => BTreeMap::new(),
        };
        assert(index_views(inner@) == indexes_of(self@, name@));
        let ghost before = inner@;
        let previous = inner.insert(index, value);
        proof {
            use_type_invariant(&*self);
            assert(index_views(inner@) =~= index_views(before).insert(index, value@));
            assert(sparse_views(self.0@.insert(name@, inner)) =~= sparse_views(self.0@).insert(name@, index_views(inner@)));
            assert(index_views(inner@).contains_key(index));
        }
        let mut entries: StrMap<BTreeMap<u32, OptionValue>> = StrMap::new();
        proof {
            assert(sparse_views(entries@) =~= Map::<Seq<char>, Map<u32, OptionValueView>>::empty());
        }
        std::mem::swap(&mut entries, &mut self.0);
        entries.insert(name, inner);
        proof {
            let m = sparse_views(entries@);
            assert forall|k: Seq<char>| #[trigger] m.contains_key(k) implies exists|i: u32| m[k].contains_key(i) by {
                if k != name@ {
                    assert(sparse_views(old(self).0@).contains_key(k));
                    let i = choose|i: u32| sparse_views(old(self).0@)[k].contains_key(i);
                    assert(m[k].contains_key(i));
                } else {
                    assert(m[k].contains_key(index));
                }
            }
        }
        self.0 = entries;
        previous
    }

    /// The entries in lexical base-name order.
    pub fn iter(&self) -> (r: &[(String, BTreeMap<u32, OptionValue>)])
        ensures
            sorted_pairs(r@.map_values(|e: (String, BTreeMap<u32, OptionValue>)| (e.0@, e.1))),
            sparse_views(pairs_map(r@.map_values(|e: (String, BTreeMap<u32, OptionValue>)| (e.0@, e.1)))) == self@,
            sparse_indexes_nonempty(self@),
    {
        proof { use_type_invariant(self); }
        self.0.iter()
    }

    /// Parses `show-options` or `show-hooks` output, keeping the entries whose
    /// names carry an index in brackets.
    pub fn parse(bytes: &[u8]) -> (r: Result<Self, Error>)
        ensures
            match parsed_options(bytes@) {
                None => r matches Err(e) && option_error_prefixed(e@, OptionErrorKind::Parse, "option name is not UTF-8: "@),
                Some(m) => exists|s: Seq<(Seq<char>, OptionValueView)>| #![trigger sparse_of(s)]
                    sorted_pairs(s) && pairs_map(s) == m && match sparse_of(s) {
                        Ok(sm) => r matches Ok(x) && x@ == sm,
                        Err(e) => r matches Err(x) && x@ == e,
                    },
            },
            r matches Ok(x) ==> forall|k: Seq<char>| #[trigger] x@.contains_key(k) ==> exists|i: u32| x@[k].contains_key(i),
    {
        let options = match OptionMap::parse(bytes) {
            Ok(o) => o,
            Err(e) => return Err(e),
        };
        let entries = options.iter();
        let ghost raw = entries@.map_values(|e: (String, OptionValue)| (e.0@, e.1));
        let ghost s = viewed_pairs(raw);
        proof {
            lemma_viewed_pairs(raw);
            assert(sparse_of(s.take(0)) == Ok::<Map<Seq<char>, Map<u32, OptionValueView>>, ErrorView>(Map::empty())) by {
                assert(s.take(0).len() == 0);
            }
        }
        let mut sparse = SparseOptionMap::new();
        let mut i: usize = 0;
        while i < entries.len()
            invariant
                i <= entries@.len(),
                raw == entries@.map_values(|e: (String, OptionValue)| (e.0@, e.1)),
                s == viewed_pairs(raw),
                sorted_pairs(s),
                parsed_options(bytes@) == Some(pairs_map(s)),
                sparse_of(s.take(i as int)) == Ok::<Map<Seq<char>, Map<u32, OptionValueView>>, ErrorView>(sparse@),
            decreases entries.len() - i,
        {
            let ghost next = s.take(i as int + 1);
            proof {
                assert(next.drop_last() =~= s.take(i as int));
                assert(next.last() == (entries@[i as int].0@, entries@[i as int].1@));
            }
            let entry = &entries[i];
            let name = chars_of(entry.0.as_str());
            match last_open_bracket_exec(name.as_slice()) {
                None => {},
                Some(open) => {
                    proof { lemma_last_open_bracket(name@); }
                    let n = name.len();
                    if name[n - 1] != ']' {
                        let message = quoted_message("malformed indexed option `", name.as_slice());
                        proof { lemma_sparse_error_persists(s, i as int + 1); }
                        return Err(Error::Option { kind: OptionErrorKind::SparseIndex, message });
                    }
                    let digits = slice_chars(name.as_slice(), open + 1, n - 1);
                    match parse_unsigned_chars(digits.as_slice(), 4294967295u64) {
                        Err(_) => {
                            let message = quoted_message("invalid index in `", name.as_slice());
                            proof { lemma_sparse_error_persists(s, i as int + 1); }
                            return Err(Error::Option { kind: OptionErrorKind::SparseIndex, message });
                        },
                        Ok(index) => {
                            let base = slice_chars(name.as_slice(), 0, open);
                            assert(base@ =~= name@.take(open as int));
                            sparse.insert(string_from_chars(base.as_slice()), index as u32, entry.1.clone());
                        },
                    }
                },
            }
            i = i + 1;
        }
        assert(s.take(entries@.len() as int) =~= s);
        proof {
            law_sparse_indexes_nonempty(s);
            assert(sparse_of(s) == Ok::<Map<Seq<char>, Map<u32, OptionValueView>>, ErrorView>(sparse@));
            assert forall|k: Seq<char>| #[trigger] sparse@.contains_key(k) implies exists|i: u32| sparse@[k].contains_key(i) by {
                assert(sparse_of(s)->Ok_0.contains_key(k));
            }
        }
        Ok(sparse)
    }
}

proof fn lemma_sparse_error_persists(s: Seq<(Seq<char>, OptionValueView)>, k: int)
    requires
        0 <= k <= s.len(),
        sparse_of(s.take(k)) is Err,
    ensures
        sparse_of(s) == sparse_of(s.take(k)),
    decreases s.len() - k,
{
    if k < s.len() {
        let next = s.take(k + 1);
        assert(next.drop_last() =~= s.take(k));
        lemma_sparse_error_persists(s, k + 1);
    } else {
        assert(s.take(k) =~= s);
    }
}


proof fn lemma_first_space(name: Seq<u8>, rest: Seq<u8>)
    requires
        !name.contains(32u8),
    ensures
        first_space(name + seq![32u8] + rest) == name.len(),
    decreases name.len(),
{
    let line = name + seq![32u8] + rest;
    if name.len() == 0 {
        assert(line[0] == 32u8);
    } else {
        assert(name[0] != 32u8);
        assert(line[0] == name[0]);
        assert(!name.drop_first().contains(32u8)) by {
            if name.drop_first().contains(32u8) {
                let k = choose|k: int| 0 <= k < name.drop_first().len() && name.drop_first()[k] == 32u8;
                assert(name[k + 1] == 32u8);
            }
        }
        lemma_first_space(name.drop_first(), rest);
        assert(line.drop_first() =~= name.drop_first() + seq![32u8] + rest);
    }
}

/// An option line splits at its first space only: a name without spaces and
/// the whole value after it, spaces included.
pub proof fn law_option_line_first_space(name: Seq<u8>, value: Seq<u8>)
    requires
        !name.contains(32u8),
    ensures
        option_line(name + seq![32u8] + value) == (name, value),
{
    let line = name + seq![32u8] + value;
    lemma_first_space(name, value);
    assert(line.take(name.len() as int) =~= name);
    assert(line.skip(name.len() as int + 1) =~= value);
}


proof fn lemma_last_open_bracket_after(s: Seq<char>, t: Seq<char>)
    requires
        s.len() > 0,
        s.last() == '[',
        !t.contains('['),
    ensures
        last_open_bracket(s + t) == Some(s.len() - 1),
    decreases t.len(),
{
    if t.len() == 0 {
        assert(s + t =~= s);
    } else {
        assert(t.last() != '[') by {
            assert(t[t.len() - 1] == t.last());
        }
        assert(!t.drop_last().contains('[')) by {
            if t.drop_last().contains('[') {
                let k = choose|k: int| 0 <= k < t.drop_last().len() && t.drop_last()[k] == '[';
                assert(t[k] == '[');
            }
        }
        lemma_last_open_bracket_after(s, t.drop_last());
        assert((s + t).drop_last() =~= s + t.drop_last());
        assert((s + t).last() == t.last());
    }
}

/// An indexed option line `base[index]` folds its value into the base name's
/// indexes, whatever the base name holds.
pub proof fn law_sparse_entry(m: Map<Seq<char>, Map<u32, OptionValueView>>, base: Seq<char>, index: u32, value: OptionValueView)
    ensures
        sparse_step(Ok(m), base + seq!['['] + crate::numeric::decimal(index as nat) + seq![']'], value)
            == Ok::<Map<Seq<char>, Map<u32, OptionValueView>>, ErrorView>(m.insert(base, indexes_of(m, base).insert(index, value))),
{
    let digits = crate::numeric::decimal(index as nat);
    let head = base + seq!['['];
    let tail = digits + seq![']'];
    let name = base + seq!['['] + digits + seq![']'];
    assert(name =~= head + tail);
    crate::numeric::lemma_decimal_digits(index as nat);
    assert(!tail.contains('[')) by {
        if tail.contains('[') {
            let k = choose|k: int| 0 <= k < tail.len() && tail[k] == '[';
            if k < digits.len() {
                assert(tail[k] == digits[k]);
                assert(crate::numeric::is_digit(digits[k]));
            }
        }
    }
    lemma_last_open_bracket_after(head, tail);
    assert(name.last() == ']');
    let open = base.len() as int;
    assert(name.subrange(open + 1, name.len() - 1) =~= digits);
    assert(name.take(open) =~= base);
    crate::numeric::lemma_unsigned_round_trip(index as nat, u32::MAX as nat);
}


/// tmux reports every option as text: a flag or a number written as text
/// reads back as the same flag or number.
pub proof fn law_option_values_read_back(n: i64, b: bool)
    ensures
        option_number(OptionValueView::Text(option_bytes(OptionValueView::Number(n)))) == Some(n),
        option_flag(OptionValueView::Text(option_bytes(OptionValueView::Flag(b)))) == Some(b),
{
    let digits = signed_decimal(n as int);
    vstd::utf8::encode_utf8_valid_utf8(digits);
    vstd::utf8::encode_utf8_decode_utf8(digits);
    crate::numeric::law_signed_round_trip(n as int, 9223372036854775808, i64::MAX as nat);
    reveal_strlit("on");
    reveal_strlit("off");
    let on = "on"@;
    let off = "off"@;
    assert(vstd::utf8::is_ascii_chars(on));
    assert(vstd::utf8::is_ascii_chars(off));
    vstd::utf8::is_ascii_chars_encode_utf8(on);
    vstd::utf8::is_ascii_chars_encode_utf8(off);
    assert(encode_utf8(on)[0] == on[0] as u8);
    assert(encode_utf8(on)[1] == on[1] as u8);
    assert(encode_utf8(off)[0] == off[0] as u8);
    assert(encode_utf8(off)[1] == off[1] as u8);
    assert(encode_utf8(off)[2] == off[2] as u8);
    assert(encode_utf8(on) =~= seq![111u8, 110u8]);
    assert(encode_utf8(off) =~= seq![111u8, 102u8, 102u8]);
}

/// The option name of one `show-options` line.
pub open spec fn line_name(line: Seq<u8>) -> Seq<char> {
    decode_utf8(option_line(line).0)
}

/// The names that some line of `show-options` output gives.
pub open spec fn option_names(lines: Seq<Seq<u8>>) -> Set<Seq<char>> {
    Set::new(|n: Seq<char>| exists|i: int| 0 <= i < lines.len() && #[trigger] line_name(lines[i]) == n)
}

proof fn lemma_options_per_name(lines: Seq<Seq<u8>>)
    ensures
        options_of(lines) matches Some(m) ==> {
            &&& m.dom() == option_names(lines)
            &&& forall|i: int| #![trigger lines[i]]
                0 <= i < lines.len() && (forall|j: int| i < j < lines.len() ==> line_name(lines[j]) != line_name(lines[i]))
                    ==> m[line_name(lines[i])] == OptionValueView::Text(option_line(lines[i]).1)
        },
    decreases lines.len(),
{
    if lines.len() > 0 {
        let front = lines.drop_last();
        lemma_options_per_name(front);
        if let Some(m) = options_of(lines) {
            let m0 = options_of(front)->Some_0;
            let last = lines.len() - 1;
            assert(lines[last] == lines.last());
            assert(m.dom() =~= option_names(lines)) by {
                assert forall|n: Seq<char>| #[trigger] option_names(lines).contains(n) implies m.dom().contains(n) by {
                    let i = choose|i: int| 0 <= i < lines.len() && #[trigger] line_name(lines[i]) == n;
                    if i < last {
                        assert(front[i] == lines[i]);
                        assert(option_names(front).contains(n));
                    }
                }
                assert forall|n: Seq<char>| m.dom().contains(n) implies #[trigger] option_names(lines).contains(n) by {
                    if n != line_name(lines[last]) {
                        assert(option_names(front).contains(n));
                        let i = choose|i: int| 0 <= i < front.len() && #[trigger] line_name(front[i]) == n;
                        assert(front[i] == lines[i]);
                    }
                }
            }
            assert forall|i: int| #![trigger lines[i]]
                0 <= i < lines.len() && (forall|j: int| i < j < lines.len() ==> line_name(lines[j]) != line_name(lines[i]))
                implies m[line_name(lines[i])] == OptionValueView::Text(option_line(lines[i]).1) by {
                if i < last {
                    assert(line_name(lines[last]) != line_name(lines[i]));
                    assert(front[i] == lines[i]);
                    assert forall|j: int| i < j < front.len() implies line_name(front[j]) != line_name(front[i]) by {
                        assert(front[j] == lines[j]);
                    }
                    assert(m0[line_name(front[i])] == OptionValueView::Text(option_line(front[i]).1));
                }
            }
        }
    } else {
        assert(option_names(lines) =~= Set::<Seq<char>>::empty());
    }
}

/// Parsed `show-options` output holds one entry per distinct option name
/// among its non-empty lines, a repeated name counting once, and each name
/// holds the value of the last line that gives it.
pub proof fn law_options_one_per_name(bytes: Seq<u8>)
    ensures
        parsed_options(bytes) matches Some(m) ==> {
            let lines = nonempty_pieces(split_on(bytes, 10u8));
            &&& m.dom() == option_names(lines)
            &&& m.len() == option_names(lines).len()
            &&& forall|i: int| #![trigger lines[i]]
                0 <= i < lines.len() && (forall|j: int| i < j < lines.len() ==> line_name(lines[j]) != line_name(lines[i]))
                    ==> m[line_name(lines[i])] == OptionValueView::Text(option_line(lines[i]).1)
        },
{
    lemma_options_per_name(nonempty_pieces(split_on(bytes, 10u8)));
}

/// Every base name that a sparse fold keeps holds at least one index.
pub proof fn law_sparse_indexes_nonempty(entries: Seq<(Seq<char>, OptionValueView)>)
    ensures
        sparse_of(entries) matches Ok(m) ==> forall|k: Seq<char>| #[trigger] m.contains_key(k) ==> exists|i: u32| m[k].contains_key(i),
    decreases entries.len(),
{
    if entries.len() > 0 {
        let front = entries.drop_last();
        law_sparse_indexes_nonempty(front);
        let n = entries.last().0;
        if let Ok(m) = sparse_of(front) {
            if let Some(open) = last_open_bracket(n) {
                if n.last() == ']' {
                    if let Ok(index) = parse_unsigned(n.subrange(open + 1, n.len() - 1), u32::MAX as nat) {
                        let base = n.take(open);
                        let m2 = m.insert(base, indexes_of(m, base).insert(index as u32, entries.last().1));
                        assert(sparse_of(entries) == Ok::<Map<Seq<char>, Map<u32, OptionValueView>>, ErrorView>(m2));
                        assert forall|k: Seq<char>| #[trigger] m2.contains_key(k) implies exists|i: u32| m2[k].contains_key(i) by {
                            if k == base {
                                assert(m2[k].contains_key(index as u32));
                            } else {
                                assert(m.contains_key(k));
                                let i = choose|i: u32| m[k].contains_key(i);
                                assert(m2[k].contains_key(i));
                            }
                        }
                    }
                }
            }
        }
    }
}

/// The flags of each option scope: `-s` for the server, `-g` for global
/// session options, none for a session, `-g -w` for global window options,
/// `-w` for a window and `-p` for a pane. So exactly the window scopes carry
/// `-w`, and no two scopes are selected by the same flags.
pub proof fn law_scope_flags(scope: OptionScope, other: OptionScope)
    ensures
        scope_flags(OptionScope::Server) == seq![seq!['-', 's']],
        scope_flags(OptionScope::GlobalSession) == seq![seq!['-', 'g']],
        scope_flags(OptionScope::Session) == Seq::<Seq<char>>::empty(),
        scope_flags(OptionScope::GlobalWindow) == seq![seq!['-', 'g'], seq!['-', 'w']],
        scope_flags(OptionScope::Window) == seq![seq!['-', 'w']],
        scope_flags(OptionScope::Pane) == seq![seq!['-', 'p']],
        scope_flags(scope).contains(seq!['-', 'w']) <==> (scope == OptionScope::GlobalWindow || scope == OptionScope::Window),
        scope != other ==> scope_flags(scope) != scope_flags(other),
{
    reveal_strlit("-s");
    reveal_strlit("-g");
    reveal_strlit("-w");
    reveal_strlit("-p");
    let s = seq!['-', 's'];
    let g = seq!['-', 'g'];
    let w = seq!['-', 'w'];
    let p = seq!['-', 'p'];
    assert("-s"@ =~= s);
    assert("-g"@ =~= g);
    assert("-w"@ =~= w);
    assert("-p"@ =~= p);
    assert(s != w && g != w && p != w && s != g && s != p && g != p) by {
        assert(s[1] != w[1] && g[1] != w[1] && p[1] != w[1] && s[1] != g[1] && s[1] != p[1] && g[1] != p[1]);
    }
    assert(seq![g, w][1] == w);
    assert(seq![w][0] == w);
    if scope_flags(scope).contains(w) {
        let k = choose|k: int| 0 <= k < scope_flags(scope).len() && scope_flags(scope)[k] == w;
    }
    if scope != other {
        if scope_flags(scope) == scope_flags(other) {
            assert(scope_flags(scope).len() == scope_flags(other).len());
            if scope_flags(scope).len() > 0 {
                assert(scope_flags(scope)[0] == scope_flags(other)[0]);
            }
            if scope_flags(scope).len() > 1 {
                assert(scope_flags(scope)[1] == scope_flags(other)[1]);
            }
        }
    }
}

} // verus!
