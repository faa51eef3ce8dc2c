//! Byte-preserving text returned by tmux, and the small string toolkit the
//! rest of the library builds on.

use vstd::prelude::*;
use vstd::utf8::{decode_utf8, encode_utf8, valid_utf8};
use vstd::string::StringSliceAdditionalSpecFns;

verus! {

/// The standard library's UTF-8 decoding error.
#[verifier::external_type_specification]
#[verifier::external_body]
pub struct ExUtf8Error(std::str::Utf8Error);

/// The characters that `String::from_utf8_lossy` produces for a byte sequence,
/// replacing each invalid sequence with U+FFFD.
pub uninterp spec fn utf8_lossy(bytes: Seq<u8>) -> Seq<char>;

/// Calls `std::str::from_utf8`, which succeeds exactly on valid UTF-8 and then
/// views the same bytes as a string.
#[verifier::external_body]
pub(crate) fn utf8_str(bytes: &[u8]) -> (r: Result<&str, std::str::Utf8Error>)
    ensures
        r is Ok <==> valid_utf8(bytes@),
        r matches Ok(s) ==> s@ == decode_utf8(bytes@),
{
    std::str::from_utf8(bytes)
}

/// Calls `ToString::to_string` on a `Utf8Error`, which renders the standard
/// library's description of the failure; nothing is stated about that text.
#[verifier::external_body]
pub(crate) fn utf8_error_text(error: &std::str::Utf8Error) -> (r: String) {
    error.to_string()
}

/// Calls `String::from_utf8_lossy`: valid UTF-8 decodes unchanged, and every
/// other input is described by `utf8_lossy`.
#[verifier::external_body]
pub(crate) fn lossy_string(bytes: &[u8]) -> (r: String)
    ensures
        r@ == utf8_lossy(bytes@),
        valid_utf8(bytes@) ==> r@ == decode_utf8(bytes@),
{
    String::from_utf8_lossy(bytes).into_owned()
}

/// Calls `String::push`, which appends one character.
#[verifier::external_body]
pub(crate) fn push_char(s: &mut String, c: char)
    ensures
        final(s)@ == old(s)@.push(c),
{
    s.push(c);
}

/// The characters of a string slice.
pub fn chars_of(s: &str) -> (v: Vec<char>)
    ensures
        v@ == s@,
{
    let mut v: Vec<char> = Vec::new();
    for c in it: s.chars()
        invariant
            v@ == it.seq().take(it.index() as int),
            it.seq() == s@,
    {
        v.push(c);
    }
    v
}

/// A string holding exactly the given characters.
pub fn string_from_chars(chars: &[char]) -> (r: String)
    ensures
        r@ == chars@,
{
    let mut r = String::new();
    let mut k: usize = 0;
    while k < chars.len()
        invariant
            k <= chars@.len(),
            r@ == chars@.take(k as int),
        decreases chars.len() - k,
    {
        push_char(&mut r, chars[k]);
        assert(chars@.take(k + 1) == chars@.take(k as int).push(chars@[k as int]));
        k = k + 1;
    }
    assert(chars@.take(chars@.len() as int) == chars@);
    r
}

/// The UTF-8 bytes of a string slice.
pub fn str_bytes(s: &str) -> (v: Vec<u8>)
    ensures
        v@ == encode_utf8(s@),
{
    vstd::slice::slice_to_vec(s.as_bytes())
}

/// Appends a string slice to a string.
pub fn append_str(s: &mut String, tail: &str)
    ensures
        final(s)@ == old(s)@ + tail@,
{
    let chars = chars_of(tail);
    let ghost start = s@;
    let mut k: usize = 0;
    while k < chars.len()
        invariant
            k <= chars@.len(),
            chars@ == tail@,
            s@ == start + chars@.take(k as int),
        decreases chars.len() - k,
    {
        push_char(s, chars[k]);
        assert(chars@.take(k + 1) == chars@.take(k as int).push(chars@[k as int]));
        k = k + 1;
    }
    assert(chars@.take(chars@.len() as int) == chars@);
}

/// Appends characters to a string.
pub fn append_chars(s: &mut String, tail: &[char])
    ensures
        final(s)@ == old(s)@ + tail@,
{
    let ghost start = s@;
    let mut k: usize = 0;
    while k < tail.len()
        invariant
            k <= tail@.len(),
            s@ == start + tail@.take(k as int),
        decreases tail.len() - k,
    {
        push_char(s, tail[k]);
        assert(tail@.take(k + 1) == tail@.take(k as int).push(tail@[k as int]));
        k = k + 1;
    }
    assert(tail@.take(tail@.len() as int) == tail@);
}

/// An owned copy of a string slice.
pub fn owned(s: &str) -> (r: String)
    ensures
        r@ == s@,
{
    let mut r = String::new();
    append_str(&mut r, s);
    r
}

/// A copy of a string.
pub fn copy_string(s: &String) -> (r: String)
    ensures
        r@ == s@,
{
    s.clone()
}


/// Splitting bytes at `sep`, as `<[u8]>::split` does: the pieces between
/// separators, including empty ones, in order.
pub open spec fn split_on(s: Seq<u8>, sep: u8) -> Seq<Seq<u8>>
    decreases s.len(),
{
    if s.len() == 0 {
        seq![seq![]]
    } else if s.last() == sep {
        split_on(s.drop_last(), sep).push(seq![])
    } else {
        let p = split_on(s.drop_last(), sep);
        p.update(p.len() - 1, p.last().push(s.last()))
    }
}

/// Mapping a sequence with one more element appends the mapped element.
pub proof fn lemma_map_push<A, B>(s: Seq<A>, x: A, f: spec_fn(A) -> B)
    ensures
        s.push(x).map_values(f) == s.map_values(f).push(f(x)),
{
    assert(s.push(x).map_values(f) =~= s.map_values(f).push(f(x)));
}

/// Taking one more element of a sequence appends that element.
pub proof fn lemma_take_push<A>(s: Seq<A>, k: int)
    requires
        0 <= k < s.len(),
    ensures
        s.take(k + 1) == s.take(k).push(s[k]),
{
    assert(s.take(k + 1) =~= s.take(k).push(s[k]));
}

/// Bytes holding no separator split into one piece: themselves.
pub proof fn lemma_split_on_free(s: Seq<u8>, sep: u8)
    requires
        !s.contains(sep),
    ensures
        split_on(s, sep) == seq![s],
    decreases s.len(),
{
    if s.len() == 0 {
        assert(s =~= Seq::<u8>::empty());
        assert(seq![Seq::<u8>::empty()] =~= seq![s]);
    } else {
        assert(!s.drop_last().contains(sep)) by {
            if s.drop_last().contains(sep) {
                let k = choose|k: int| 0 <= k < s.drop_last().len() && s.drop_last()[k] == sep;
                assert(s[k] == sep);
            }
        }
        assert(s.last() != sep) by {
            assert(s[s.len() - 1] == s.last());
        }
        lemma_split_on_free(s.drop_last(), sep);
        assert(s.drop_last().push(s.last()) =~= s);
        assert(seq![s.drop_last()].update(0, s.drop_last().push(s.last())) =~= seq![s]);
    }
}

/// The pieces of `split_on` that are not empty, in order.
pub open spec fn nonempty_pieces(pieces: Seq<Seq<u8>>) -> Seq<Seq<u8>>
    decreases pieces.len(),
{
    if pieces.len() == 0 {
        seq![]
    } else if pieces.last().len() == 0 {
        nonempty_pieces(pieces.drop_last())
    } else {
        nonempty_pieces(pieces.drop_last()).push(pieces.last())
    }
}

/// The non-empty lines of a byte sequence, split at `\n`.
pub open spec fn nonempty_lines(s: Seq<u8>) -> Seq<Seq<u8>> {
    nonempty_pieces(split_on(s, 10u8))
}

proof fn lemma_split_on_nonempty(s: Seq<u8>, sep: u8)
    ensures
        split_on(s, sep).len() >= 1,
    decreases s.len(),
{
    if s.len() > 0 {
        lemma_split_on_nonempty(s.drop_last(), sep);
    }
}

/// The pieces of `bytes` between `sep` bytes that are not empty, in order.
pub fn split_nonempty(bytes: &[u8], sep: u8) -> (r: Vec<Vec<u8>>)
    ensures
        r@.map_values(|v: Vec<u8>| v@) == nonempty_pieces(split_on(bytes@, sep)),
{
    let mut done: Vec<Vec<u8>> = Vec::new();
    let mut current: Vec<u8> = Vec::new();
    let mut k: usize = 0;
    while k < bytes.len()
        invariant
            k <= bytes@.len(),
            split_on(bytes@.take(k as int), sep).len() >= 1,
            current@ == split_on(bytes@.take(k as int), sep).last(),
            done@.map_values(|v: Vec<u8>| v@) == nonempty_pieces(split_on(bytes@.take(k as int), sep).drop_last()),
        decreases bytes.len() - k,
    {
        let b = bytes[k];
        let ghost prev = bytes@.take(k as int);
        let ghost next = bytes@.take(k + 1);
        proof {
            assert(next.drop_last() =~= prev);
            assert(next.last() == b);
            lemma_split_on_nonempty(prev, sep);
        }
        if b == sep {
            if current.len() > 0 {
                let ghost before = done@.map_values(|v: Vec<u8>| v@);
                done.push(current);
                assert(done@.map_values(|v: Vec<u8>| v@) =~= before.push(split_on(prev, sep).last()));
            }
            current = Vec::new();
            proof {
                let p = split_on(prev, sep);
                assert(split_on(next, sep) == p.push(seq![]));
                assert(split_on(next, sep).drop_last() =~= p);
                assert(p =~= p.drop_last().push(p.last()));
            }
        } else {
            current.push(b);
            proof {
                let p = split_on(prev, sep);
                assert(split_on(next, sep) == p.update(p.len() - 1, p.last().push(b)));
                assert(split_on(next, sep).drop_last() =~= p.drop_last());
            }
        }
        k = k + 1;
    }
    assert(bytes@.take(bytes@.len() as int) =~= bytes@);
    proof {
        let p = split_on(bytes@, sep);
        lemma_split_on_nonempty(bytes@, sep);
        assert(p =~= p.drop_last().push(p.last()));
    }
    if current.len() > 0 {
        done.push(current);
    }
    done
}

/// Removes one trailing carriage return.
pub open spec fn strip_cr(line: Seq<u8>) -> Seq<u8> {
    if line.len() > 0 && line.last() == 13u8 {
        line.drop_last()
    } else {
        line
    }
}

/// Text returned by tmux without an implicit UTF-8 conversion.
#[derive(Debug, Hash, PartialOrd, Ord)]
pub struct TmuxText(Vec<u8>);

impl View for TmuxText {
    type V = Seq<u8>;

    closed spec fn view(&self) -> Seq<u8> {
        self.0@
    }
}

impl Clone for TmuxText {
    fn clone(&self) -> (r: Self)
        ensures
            r@ == self@,
    {
        let r = TmuxText(self.0.clone());
        assert(r@ =~= self@);
        r
    }
}

impl PartialEq for TmuxText {
    fn eq(&self, other: &Self) -> (r: bool) {
        bytes_equal(self.0.as_slice(), other.0.as_slice())
    }
}

impl vstd::std_specs::cmp::PartialEqSpecImpl for TmuxText {
    open spec fn obeys_eq_spec() -> bool {
        true
    }

    open spec fn eq_spec(&self, other: &Self) -> bool {
        self@ == other@
    }
}

impl Eq for TmuxText {}

/// Whether two lists of text hold the same texts in the same order.
pub fn texts_equal(a: &Vec<TmuxText>, b: &Vec<TmuxText>) -> (r: bool)
    ensures
        r == (a@.map_values(|t: TmuxText| t@) == b@.map_values(|t: TmuxText| t@)),
{
    let ghost va = a@.map_values(|t: TmuxText| t@);
    let ghost vb = b@.map_values(|t: TmuxText| t@);
    if a.len() != b.len() {
        assert(va.len() != vb.len());
        return false;
    }
    let mut k: usize = 0;
    while k < a.len()
        invariant
            k <= a@.len(),
            a@.len() == b@.len(),
            va == a@.map_values(|t: TmuxText| t@),
            vb == b@.map_values(|t: TmuxText| t@),
            forall|j: int| 0 <= j < k ==> va[j] == vb[j],
        decreases a.len() - k,
    {
        if !(a[k] == b[k]) {
            assert(va[k as int] != vb[k as int]);
            return false;
        }
        k = k + 1;
    }
    assert(va =~= vb);
    true
}

/// Whether two byte slices hold the same bytes.
pub fn bytes_equal(a: &[u8], b: &[u8]) -> (r: bool)
    ensures
        r == (a@ == b@),
{
    if a.len() != b.len() {
        return false;
    }
    let mut k: usize = 0;
    while k < a.len()
        invariant
            k <= a@.len(),
            a@.len() == b@.len(),
            forall|i: int| 0 <= i < k ==> a@[i] == b@[i],
        decreases a.len() - k,
    {
        if a[k] != b[k] {
            return false;
        }
        k = k + 1;
    }
    assert(a@ =~= b@);
    true
}

impl TmuxText {
    /// Creates text from raw bytes.
    pub fn new(bytes: Vec<u8>) -> (r: Self)
        ensures
            r@ == bytes@,
    {
        TmuxText(bytes)
    }

    /// Creates text holding the UTF-8 bytes of a string slice.
    pub fn from_str(value: &str) -> (r: Self)
        ensures
            r@ == encode_utf8(value@),
    {
        TmuxText(str_bytes(value))
    }

    /// Creates text holding the UTF-8 bytes of a string.
    pub fn from_string(value: String) -> (r: Self)
        ensures
            r@ == encode_utf8(value@),
    {
        TmuxText(str_bytes(value.as_str()))
    }

    /// Returns the raw bytes.
    pub fn as_bytes(&self) -> (r: &[u8])
        ensures
            r@ == self@,
    {
        self.0.as_slice()
    }

    /// Returns a UTF-8 view when the bytes are valid UTF-8.
    pub fn to_str(&self) -> (r: Result<&str, std::str::Utf8Error>)
        ensures
            r is Ok <==> valid_utf8(self@),
            r matches Ok(s) ==> s@ == decode_utf8(self@),
    {
        utf8_str(self.0.as_slice())
    }

    /// Returns a lossy UTF-8 rendering.
    pub fn to_string_lossy(&self) -> (r: String)
        ensures
            r@ == utf8_lossy(self@),
            valid_utf8(self@) ==> r@ == decode_utf8(self@),
    {
        lossy_string(self.0.as_slice())
    }

    /// Returns whether the text has no bytes.
    pub fn is_empty(&self) -> (r: bool)
        ensures
            r == (self@.len() == 0),
    {
        self.0.len() == 0
    }

    /// Consumes the wrapper and returns the raw bytes.
    pub fn into_bytes(self) -> (r: Vec<u8>)
        ensures
            r@ == self@,
    {
        self.0
    }

    /// Appends bytes.
    pub fn push_bytes(&mut self, bytes: &[u8])
        ensures
            final(self)@ == old(self)@ + bytes@,
    {
        let ghost start = self.0@;
        let mut k: usize = 0;
        while k < bytes.len()
            invariant
                k <= bytes@.len(),
                self.0@ == start + bytes@.take(k as int),
            decreases bytes.len() - k,
        {
            self.0.push(bytes[k]);
            assert(bytes@.take(k + 1) == bytes@.take(k as int).push(bytes@[k as int]));
            k = k + 1;
        }
        assert(bytes@.take(bytes@.len() as int) == bytes@);
    }
}

impl Default for TmuxText {
    fn default() -> (r: Self)
        ensures
            r@ == Seq::<u8>::empty(),
    {
        TmuxText(Vec::new())
    }
}

} // verus!
