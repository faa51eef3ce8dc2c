//! Owned snapshots hydrated from tmux format rows.

use vstd::prelude::*;
use vstd::utf8::{decode_utf8, valid_utf8};
use crate::error::{Error, ErrorView};
use crate::formats::{decode_error, decode_error_prefixed, decoded_view, decodes, flag_bytes, i64_neg_limit, row_bytes, FormatDescriptor, FormatValue};
use crate::numeric::{int_error_message, int_error_text, parse_signed, parse_signed_chars, parse_unsigned, parse_unsigned_chars};
use crate::strmap::StrMap;
use crate::target::{parse_id, valid_session_name, ClientName, PaneId, SessionId, SessionName, WindowId};
use crate::text::{append_str, chars_of, owned, utf8_error_text, utf8_lossy, TmuxText};

verus! {

/// Whether a row holds a non-empty value for `token`.
pub open spec fn present(m: Map<Seq<char>, Seq<u8>>, token: Seq<char>) -> bool {
    m.contains_key(token) && m[token].len() > 0
}

/// A snapshot field that is not UTF-8: the message begins with the token.
pub open spec fn utf8_field_error(e: ErrorView, token: Seq<char>) -> bool {
    decode_error_prefixed(e, "snapshot UTF-8 field"@, token + ": "@)
}

/// A snapshot field that did not parse.
pub open spec fn typed_field_error(token: Seq<char>, detail: Seq<char>) -> ErrorView {
    decode_error("snapshot typed field"@, token + ": "@ + detail)
}

/// What reading `token` of row `m` as an unsigned number no larger than `max` gives.
pub open spec fn unsigned_field(m: Map<Seq<char>, Seq<u8>>, token: Seq<char>, max: nat, r: Result<Option<nat>, ErrorView>) -> bool {
    if !present(m, token) {
        r == Ok::<Option<nat>, ErrorView>(None)
    } else if !valid_utf8(m[token]) {
        r matches Err(e) && utf8_field_error(e, token)
    } else {
        match parse_unsigned(decode_utf8(m[token]), max) {
            Ok(n) => r == Ok::<Option<nat>, ErrorView>(Some(n)),
            Err(k) => r == Err::<Option<nat>, ErrorView>(typed_field_error(token, int_error_text(k))),
        }
    }
}

/// What reading `token` of row `m` as an `i64` gives.
pub open spec fn signed_field(m: Map<Seq<char>, Seq<u8>>, token: Seq<char>, r: Result<Option<int>, ErrorView>) -> bool {
    if !present(m, token) {
        r == Ok::<Option<int>, ErrorView>(None)
    } else if !valid_utf8(m[token]) {
        r matches Err(e) && utf8_field_error(e, token)
    } else {
        match parse_signed(decode_utf8(m[token]), i64_neg_limit(), i64::MAX as nat) {
            Ok(n) => r == Ok::<Option<int>, ErrorView>(Some(n)),
            Err(k) => r == Err::<Option<int>, ErrorView>(typed_field_error(token, int_error_text(k))),
        }
    }
}

/// What reading `token` of row `m` as a `0`/`1` flag gives.
pub open spec fn flag_field(m: Map<Seq<char>, Seq<u8>>, token: Seq<char>, r: Result<Option<bool>, ErrorView>) -> bool {
    if !present(m, token) {
        r == Ok::<Option<bool>, ErrorView>(None)
    } else {
        match flag_bytes(m[token]) {
            Some(b) => r == Ok::<Option<bool>, ErrorView>(Some(b)),
            None => r == Err::<Option<bool>, ErrorView>(decode_error("snapshot boolean field"@, token + ": expected 0 or 1"@)),
        }
    }
}

/// What reading `token` of row `m` as an identity with `prefix` gives.
pub open spec fn id_field(m: Map<Seq<char>, Seq<u8>>, token: Seq<char>, prefix: char, kind: Seq<char>, r: Result<Option<u64>, ErrorView>) -> bool {
    if !present(m, token) {
        r == Ok::<Option<u64>, ErrorView>(None)
    } else if !valid_utf8(m[token]) {
        r matches Err(e) && utf8_field_error(e, token)
    } else {
        match parse_id(prefix, decode_utf8(m[token])) {
            Some(n) => r == Ok::<Option<u64>, ErrorView>(Some(n)),
            None => r == Err::<Option<u64>, ErrorView>(typed_field_error(token,
                "invalid "@ + kind + " ID"@)),
        }
    }
}

/// The text stored for `token`, if any.
pub open spec fn text_field(m: Map<Seq<char>, Seq<u8>>, token: Seq<char>, r: Option<&TmuxText>) -> bool {
    match r {
        Some(t) => m.contains_key(token) && t@ == m[token],
        None => !m.contains_key(token),
    }
}

/// Views of an unsigned reading.
pub open spec fn u64_view(r: Result<Option<u64>, Error>) -> Result<Option<nat>, ErrorView> {
    match r {
        Ok(Some(n)) => Ok(Some(n as nat)),
        Ok(None) => Ok(None),
        Err(e) => Err(e@),
    }
}

/// Views of a `u32` reading.
pub open spec fn u32_view(r: Result<Option<u32>, Error>) -> Result<Option<nat>, ErrorView> {
    match r {
        Ok(Some(n)) => Ok(Some(n as nat)),
        Ok(None) => Ok(None),
        Err(e) => Err(e@),
    }
}

/// Views of a signed reading.
pub open spec fn i64_view(r: Result<Option<i64>, Error>) -> Result<Option<int>, ErrorView> {
    match r {
        Ok(Some(n)) => Ok(Some(n as int)),
        Ok(None) => Ok(None),
        Err(e) => Err(e@),
    }
}

/// Views of a flag reading.
pub open spec fn bool_view(r: Result<Option<bool>, Error>) -> Result<Option<bool>, ErrorView> {
    match r {
        Ok(v) => Ok(v),
        Err(e) => Err(e@),
    }
}

fn field_error(context: &'static str, token: &'static str, tail: &str) -> (e: Error)
    ensures
        e@ == decode_error(context@, token@ + ": "@ + tail@),
        decode_error_prefixed(e@, context@, token@ + ": "@),
{
    let mut message = owned(token);
    append_str(&mut message, ": ");
    append_str(&mut message, tail);
    assert((token@ + ": "@ + tail@).take((token@ + ": "@).len() as int) =~= token@ + ": "@);
    Error::Decode { context, message }
}

/// The fields of one listing row.
#[derive(Clone, Debug)]
struct Snapshot {
    fields: StrMap<TmuxText>,
}

impl PartialEq for Snapshot {
    fn eq(&self, other: &Self) -> (r: bool) {
        let a = self.fields.iter();
        let b = other.fields.iter();
        let ghost f = |v: TmuxText| v@;
        let ghost va = self.fields.pairs().map_values(|e: (Seq<char>, TmuxText)| (e.0, f(e.1)));
        let ghost vb = other.fields.pairs().map_values(|e: (Seq<char>, TmuxText)| (e.0, f(e.1)));
        proof {
            crate::strmap::lemma_viewed_entries(self.fields.pairs(), other.fields.pairs(), f);
            assert(self@ =~= self.fields@.map_values(f));
            assert(other@ =~= other.fields@.map_values(f));
        }
        if a.len() != b.len() {
            assert(va.len() != vb.len());
            return false;
        }
        let mut k: usize = 0;
        while k < a.len()
            invariant
                k <= a@.len(),
                a@.len() == b@.len(),
                a@.map_values(|e: (String, TmuxText)| (e.0@, e.1)) == self.fields.pairs(),
                b@.map_values(|e: (String, TmuxText)| (e.0@, e.1)) == other.fields.pairs(),
                va == self.fields.pairs().map_values(|e: (Seq<char>, TmuxText)| (e.0, f(e.1))),
                vb == other.fields.pairs().map_values(|e: (Seq<char>, TmuxText)| (e.0, f(e.1))),
                f == (|v: TmuxText| v@),
                forall|j: int| 0 <= j < k ==> va[j] == vb[j],
                (self@ == other@) == (va == vb),
            decreases a.len() - k,
        {
            assert(self.fields.pairs()[k as int] == (a@[k as int].0@, a@[k as int].1));
            assert(other.fields.pairs()[k as int] == (b@[k as int].0@, b@[k as int].1));
            let same = a[k].0 == b[k].0 && a[k].1 == b[k].1;
            if !same {
                assert(va[k as int] != vb[k as int]);
                return false;
            }
            k = k + 1;
        }
        assert(va =~= vb);
        true
    }
}

impl vstd::std_specs::cmp::PartialEqSpecImpl for Snapshot {
    open spec fn obeys_eq_spec() -> bool {
        true
    }

    open spec fn eq_spec(&self, other: &Self) -> bool {
        self@ == other@
    }
}

impl Eq for Snapshot {}

impl View for Snapshot {
    type V = Map<Seq<char>, Seq<u8>>;

    closed spec fn view(&self) -> Map<Seq<char>, Seq<u8>> {
        row_bytes(self.fields@)
    }
}

impl Snapshot {
    fn new(fields: StrMap<TmuxText>) -> (r: Self)
        ensures
            r@ == row_bytes(fields@),
    {
        Snapshot { fields }
    }

    fn get(&self, token: &str) -> (r: Option<&TmuxText>)
        ensures
            text_field(self@, token@, r),
    {
        self.fields.get(token)
    }

    fn iter(&self) -> (r: &[(String, TmuxText)])
        ensures
            row_bytes(crate::strmap::pairs_map(r@.map_values(|e: (String, TmuxText)| (e.0@, e.1)))) == self@,
    {
        self.fields.iter()
    }

    /// The UTF-8 text of a present field, `None` when absent or empty.
    fn present_text(&self, token: &'static str) -> (r: Result<Option<&str>, Error>)
        ensures
            match r {
                Ok(Some(s)) => present(self@, token@) && valid_utf8(self@[token@]) && s@ == decode_utf8(self@[token@]),
                Ok(None) => !present(self@, token@),
                Err(e) => present(self@, token@) && !valid_utf8(self@[token@]) && utf8_field_error(e@, token@),
            },
    {
        match self.get(token) {
            None => Ok(None),
            Some(value) => {
                if value.is_empty() {
                    return Ok(None);
                }
                match value.to_str() {
                    Ok(s) => Ok(Some(s)),
                    Err(e) => {
                        let tail = utf8_error_text(&e);
                        Err(field_error("snapshot UTF-8 field", token, tail.as_str()))
                    },
                }
            },
        }
    }

    fn unsigned(&self, token: &'static str, max: u64) -> (r: Result<Option<u64>, Error>)
        ensures
            unsigned_field(self@, token@, max as nat, u64_view(r)),
            r matches Ok(Some(n)) ==> n <= max,
    {
        match self.present_text(token) {
            Err(e) => Err(e),
            Ok(None) => Ok(None),
            Ok(Some(s)) => {
                let chars = chars_of(s);
                match parse_unsigned_chars(chars.as_slice(), max) {
                    Ok(n) => {
                        proof { crate::numeric::lemma_parse_unsigned_bound(chars@, max as nat); }
                        Ok(Some(n))
                    },
                    Err(k) => Err(field_error("snapshot typed field", token, int_error_message(k))),
                }
            },
        }
    }

    fn unsigned32(&self, token: &'static str) -> (r: Result<Option<u32>, Error>)
        ensures
            unsigned_field(self@, token@, u32::MAX as nat, u32_view(r)),
    {
        match self.unsigned(token, 4294967295u64) {
            Ok(Some(n)) => Ok(Some(n as u32)),
            Ok(None) => Ok(None),
            Err(e) => Err(e),
        }
    }

    fn signed(&self, token: &'static str) -> (r: Result<Option<i64>, Error>)
        ensures
            signed_field(self@, token@, i64_view(r)),
    {
        match self.present_text(token) {
            Err(e) => Err(e),
            Ok(None) => Ok(None),
            Ok(Some(s)) => {
                let chars = chars_of(s);
                match parse_signed_chars(chars.as_slice(), 9223372036854775808u64, 9223372036854775807u64) {
                    Ok(n) => Ok(Some(n as i64)),
                    Err(k) => Err(field_error("snapshot typed field", token, int_error_message(k))),
                }
            },
        }
    }

    fn flag(&self, token: &'static str) -> (r: Result<Option<bool>, Error>)
        ensures
            flag_field(self@, token@, bool_view(r)),
    {
        match self.get(token) {
            None => Ok(None),
            Some(value) => {
                let b = value.as_bytes();
                if b.len() == 0 {
                    Ok(None)
                } else if b.len() == 1 && b[0] == 48u8 {
                    assert(b@ =~= seq![48u8]);
                    Ok(Some(false))
                } else if b.len() == 1 && b[0] == 49u8 {
                    assert(b@ =~= seq![49u8]);
                    Ok(Some(true))
                } else {
                    let mut message = owned(token);
                    append_str(&mut message, ": expected 0 or 1");
                    Err(Error::Decode { context: "snapshot boolean field", message })
                }
            },
        }
    }

    fn id_error(token: &'static str, kind: &'static str) -> (e: Error)
        ensures
            e@ == typed_field_error(token@, "invalid "@ + kind@ + " ID"@),
    {
        let mut detail = owned("invalid ");
        append_str(&mut detail, kind);
        append_str(&mut detail, " ID");
        field_error("snapshot typed field", token, detail.as_str())
    }
}

/// Catalog-driven field access shared by every snapshot type.
pub trait SnapshotFields {
    /// The row's fields, by token.
    spec fn field_bytes(&self) -> Map<Seq<char>, Seq<u8>>;

    /// Returns the raw value for a known descriptor.
    fn raw_field(&self, descriptor: &FormatDescriptor) -> (r: Option<&TmuxText>)
        ensures
            text_field(self.field_bytes(), descriptor@.token, r);

    /// Decodes the value using the descriptor catalog's declared type.
    fn decoded_field(&self, descriptor: &FormatDescriptor) -> (r: Result<Option<FormatValue<'_>>, Error>)
        ensures
            !self.field_bytes().contains_key(descriptor@.token) ==> decoded_view(r) == Ok::<Option<crate::formats::FormatValueView>, ErrorView>(None),
            self.field_bytes().contains_key(descriptor@.token) ==> decodes(descriptor@, self.field_bytes()[descriptor@.token], decoded_view(r)),
    {
        match self.raw_field(descriptor) {
            None => Ok(None),
            Some(value) => descriptor.decode(value),
        }
    }
}

/// An owned tmux session field snapshot.
#[derive(Clone, Debug)]
pub struct SessionSnapshot(Snapshot);

impl PartialEq for SessionSnapshot {
    fn eq(&self, other: &Self) -> (r: bool) {
        self.0 == other.0
    }
}

impl vstd::std_specs::cmp::PartialEqSpecImpl for SessionSnapshot {
    open spec fn obeys_eq_spec() -> bool {
        true
    }

    open spec fn eq_spec(&self, other: &Self) -> bool {
        self@ == other@
    }
}

impl Eq for SessionSnapshot {}

impl View for SessionSnapshot {
    type V = Map<Seq<char>, Seq<u8>>;

    closed spec fn view(&self) -> Map<Seq<char>, Seq<u8>> {
        self.0@
    }
}

impl SnapshotFields for SessionSnapshot {
    open spec fn field_bytes(&self) -> Map<Seq<char>, Seq<u8>> {
        self@
    }

    fn raw_field(&self, descriptor: &FormatDescriptor) -> (r: Option<&TmuxText>) {
        self.get(descriptor.token())
    }
}

impl SessionSnapshot {
    /// Creates a snapshot from one listing row.
    pub fn new(fields: StrMap<TmuxText>) -> (r: Self)
        ensures
            r@ == row_bytes(fields@),
    {
        SessionSnapshot(Snapshot::new(fields))
    }

    /// Returns a byte-preserving field by tmux token name.
    pub fn get(&self, token: &str) -> (r: Option<&TmuxText>)
        ensures
            text_field(self@, token@, r),
    {
        self.0.get(token)
    }

    /// The fields selected for the connected tmux version, in token order.
    pub fn iter(&self) -> (r: &[(String, TmuxText)])
        ensures
            row_bytes(crate::strmap::pairs_map(r@.map_values(|e: (String, TmuxText)| (e.0@, e.1)))) == self@,
    {
        self.0.iter()
    }


    /// Returns the immutable session ID.
    pub fn id(&self) -> (r: Result<Option<SessionId>, Error>)
        ensures
            id_field(self@, "session_id"@, '$', "session"@, id_view_session(r)),
    {
        match self.0.present_text("session_id") {
            Err(e) => Err(e),
            Ok(None) => Ok(None),
            Ok(Some(s)) => match SessionId::from_str(s) {
                Ok(id) => Ok(Some(id)),
                Err(_) => Err(Snapshot::id_error("session_id", "session")),
            },
        }
    }

    /// Returns the session name.
    pub fn name(&self) -> (r: Result<Option<SessionName>, Error>)
        ensures
            !present(self@, "session_name"@) ==> (r matches Ok(None)),
            present(self@, "session_name"@) ==> {
                let text = utf8_lossy(self@["session_name"@]);
                &&& valid_session_name(text) ==> (r matches Ok(Some(n)) && n@ == text)
                &&& !valid_session_name(text) ==> (r matches Err(e) && e@ == ErrorView::InvalidSessionName(text))
            },
    {
        match self.0.get("session_name") {
            None => Ok(None),
            Some(value) => {
                if value.is_empty() {
                    return Ok(None);
                }
                match SessionName::from_string(value.to_string_lossy()) {
                    Ok(n) => Ok(Some(n)),
                    Err(e) => Err(e),
                }
            },
        }
    }

    /// Returns the number of attached clients.
    pub fn attached_clients(&self) -> (r: Result<Option<u32>, Error>)
        ensures
            unsigned_field(self@, "session_attached"@, u32::MAX as nat, u32_view(r)),
    {
        self.0.unsigned32("session_attached")
    }

    /// Returns the number of linked windows.
    pub fn window_count(&self) -> (r: Result<Option<u32>, Error>)
        ensures
            unsigned_field(self@, "session_windows"@, u32::MAX as nat, u32_view(r)),
    {
        self.0.unsigned32("session_windows")
    }

    /// Returns the session width.
    pub fn width(&self) -> (r: Result<Option<u64>, Error>)
        ensures
            unsigned_field(self@, "session_width"@, u64::MAX as nat, u64_view(r)),
    {
        self.0.unsigned("session_width", u64::MAX)
    }

    /// Returns the session height.
    pub fn height(&self) -> (r: Result<Option<u64>, Error>)
        ensures
            unsigned_field(self@, "session_height"@, u64::MAX as nat, u64_view(r)),
    {
        self.0.unsigned("session_height", u64::MAX)
    }

    /// Returns the creation Unix timestamp.
    pub fn created(&self) -> (r: Result<Option<u64>, Error>)
        ensures
            unsigned_field(self@, "session_created"@, u64::MAX as nat, u64_view(r)),
    {
        self.0.unsigned("session_created", u64::MAX)
    }

    /// Returns the active window index.
    pub fn active_window_index(&self) -> (r: Result<Option<u64>, Error>)
        ensures
            unsigned_field(self@, "active_window_index"@, u64::MAX as nat, u64_view(r)),
    {
        self.0.unsigned("active_window_index", u64::MAX)
    }

    /// Returns the previous window index.
    pub fn last_window_index(&self) -> (r: Result<Option<u64>, Error>)
        ensures
            unsigned_field(self@, "last_window_index"@, u64::MAX as nat, u64_view(r)),
    {
        self.0.unsigned("last_window_index", u64::MAX)
    }

    /// Returns tmux's formatted creation time.
    pub fn created_string(&self) -> (r: Option<&TmuxText>)
        ensures
            text_field(self@, "session_created_string"@, r),
    {
        self.0.get("session_created_string")
    }

    /// Returns the session group name.
    pub fn group(&self) -> (r: Option<&TmuxText>)
        ensures
            text_field(self@, "session_group"@, r),
    {
        self.0.get("session_group")
    }

}

/// An owned tmux window field snapshot.
#[derive(Clone, Debug)]
pub struct WindowSnapshot(Snapshot);

impl PartialEq for WindowSnapshot {
    fn eq(&self, other: &Self) -> (r: bool) {
        self.0 == other.0
    }
}

impl vstd::std_specs::cmp::PartialEqSpecImpl for WindowSnapshot {
    open spec fn obeys_eq_spec() -> bool {
        true
    }

    open spec fn eq_spec(&self, other: &Self) -> bool {
        self@ == other@
    }
}

impl Eq for WindowSnapshot {}

impl View for WindowSnapshot {
    type V = Map<Seq<char>, Seq<u8>>;

    closed spec fn view(&self) -> Map<Seq<char>, Seq<u8>> {
        self.0@
    }
}

impl SnapshotFields for WindowSnapshot {
    open spec fn field_bytes(&self) -> Map<Seq<char>, Seq<u8>> {
        self@
    }

    fn raw_field(&self, descriptor: &FormatDescriptor) -> (r: Option<&TmuxText>) {
        self.get(descriptor.token())
    }
}

impl WindowSnapshot {
    /// Creates a snapshot from one listing row.
    pub fn new(fields: StrMap<TmuxText>) -> (r: Self)
        ensures
            r@ == row_bytes(fields@),
    {
        WindowSnapshot(Snapshot::new(fields))
    }

    /// Returns a byte-preserving field by tmux token name.
    pub fn get(&self, token: &str) -> (r: Option<&TmuxText>)
        ensures
            text_field(self@, token@, r),
    {
        self.0.get(token)
    }

    /// The fields selected for the connected tmux version, in token order.
    pub fn iter(&self) -> (r: &[(String, TmuxText)])
        ensures
            row_bytes(crate::strmap::pairs_map(r@.map_values(|e: (String, TmuxText)| (e.0@, e.1)))) == self@,
    {
        self.0.iter()
    }


    /// Returns the immutable window ID.
    pub fn id(&self) -> (r: Result<Option<WindowId>, Error>)
        ensures
            id_field(self@, "window_id"@, '@', "window"@, id_view_window(r)),
    {
        match self.0.present_text("window_id") {
            Err(e) => Err(e),
            Ok(None) => Ok(None),
            Ok(Some(s)) => match WindowId::from_str(s) {
                Ok(id) => Ok(Some(id)),
                Err(_) => Err(Snapshot::id_error("window_id", "window")),
            },
        }
    }

    /// Returns the index of this link in its session.
    pub fn index(&self) -> (r: Result<Option<u32>, Error>)
        ensures
            unsigned_field(self@, "window_index"@, u32::MAX as nat, u32_view(r)),
    {
        self.0.unsigned32("window_index")
    }

    /// Returns the window name.
    pub fn name(&self) -> (r: Option<&TmuxText>)
        ensures
            text_field(self@, "window_name"@, r),
    {
        self.0.get("window_name")
    }

    /// Returns whether this link is the active window.
    pub fn active(&self) -> (r: Result<Option<bool>, Error>)
        ensures
            flag_field(self@, "window_active"@, bool_view(r)),
    {
        self.0.flag("window_active")
    }

    /// Returns the window width.
    pub fn width(&self) -> (r: Result<Option<u64>, Error>)
        ensures
            unsigned_field(self@, "window_width"@, u64::MAX as nat, u64_view(r)),
    {
        self.0.unsigned("window_width", u64::MAX)
    }

    /// Returns the window height.
    pub fn height(&self) -> (r: Result<Option<u64>, Error>)
        ensures
            unsigned_field(self@, "window_height"@, u64::MAX as nat, u64_view(r)),
    {
        self.0.unsigned("window_height", u64::MAX)
    }

    /// Returns the pane count.
    pub fn pane_count(&self) -> (r: Result<Option<u64>, Error>)
        ensures
            unsigned_field(self@, "window_panes"@, u64::MAX as nat, u64_view(r)),
    {
        self.0.unsigned("window_panes", u64::MAX)
    }

    /// Returns whether a bell alert is set.
    pub fn bell(&self) -> (r: Result<Option<bool>, Error>)
        ensures
            flag_field(self@, "window_bell_flag"@, bool_view(r)),
    {
        self.0.flag("window_bell_flag")
    }

    /// Returns whether an activity alert is set.
    pub fn activity(&self) -> (r: Result<Option<bool>, Error>)
        ensures
            flag_field(self@, "window_activity_flag"@, bool_view(r)),
    {
        self.0.flag("window_activity_flag")
    }

    /// Returns whether a silence alert is set.
    pub fn silence(&self) -> (r: Result<Option<bool>, Error>)
        ensures
            flag_field(self@, "window_silence_flag"@, bool_view(r)),
    {
        self.0.flag("window_silence_flag")
    }

    /// Returns whether the window is zoomed.
    pub fn zoomed(&self) -> (r: Result<Option<bool>, Error>)
        ensures
            flag_field(self@, "window_zoomed_flag"@, bool_view(r)),
    {
        self.0.flag("window_zoomed_flag")
    }

    /// Returns the serialized window layout.
    pub fn layout(&self) -> (r: Option<&TmuxText>)
        ensures
            text_field(self@, "window_layout"@, r),
    {
        self.0.get("window_layout")
    }

    /// Returns the visible serialized layout.
    pub fn visible_layout(&self) -> (r: Option<&TmuxText>)
        ensures
            text_field(self@, "window_visible_layout"@, r),
    {
        self.0.get("window_visible_layout")
    }

    /// Returns the window-link flags.
    pub fn flags(&self) -> (r: Option<&TmuxText>)
        ensures
            text_field(self@, "window_flags"@, r),
    {
        self.0.get("window_flags")
    }

}

/// An owned tmux pane field snapshot.
#[derive(Clone, Debug)]
pub struct PaneSnapshot(Snapshot);

impl PartialEq for PaneSnapshot {
    fn eq(&self, other: &Self) -> (r: bool) {
        self.0 == other.0
    }
}

impl vstd::std_specs::cmp::PartialEqSpecImpl for PaneSnapshot {
    open spec fn obeys_eq_spec() -> bool {
        true
    }

    open spec fn eq_spec(&self, other: &Self) -> bool {
        self@ == other@
    }
}

impl Eq for PaneSnapshot {}

impl View for PaneSnapshot {
    type V = Map<Seq<char>, Seq<u8>>;

    closed spec fn view(&self) -> Map<Seq<char>, Seq<u8>> {
        self.0@
    }
}

impl SnapshotFields for PaneSnapshot {
    open spec fn field_bytes(&self) -> Map<Seq<char>, Seq<u8>> {
        self@
    }

    fn raw_field(&self, descriptor: &FormatDescriptor) -> (r: Option<&TmuxText>) {
        self.get(descriptor.token())
    }
}

impl PaneSnapshot {
    /// Creates a snapshot from one listing row.
    pub fn new(fields: StrMap<TmuxText>) -> (r: Self)
        ensures
            r@ == row_bytes(fields@),
    {
        PaneSnapshot(Snapshot::new(fields))
    }

    /// Returns a byte-preserving field by tmux token name.
    pub fn get(&self, token: &str) -> (r: Option<&TmuxText>)
        ensures
            text_field(self@, token@, r),
    {
        self.0.get(token)
    }

    /// The fields selected for the connected tmux version, in token order.
    pub fn iter(&self) -> (r: &[(String, TmuxText)])
        ensures
            row_bytes(crate::strmap::pairs_map(r@.map_values(|e: (String, TmuxText)| (e.0@, e.1)))) == self@,
    {
        self.0.iter()
    }


    /// Returns the immutable pane ID.
    pub fn id(&self) -> (r: Result<Option<PaneId>, Error>)
        ensures
            id_field(self@, "pane_id"@, '%', "pane"@, id_view_pane(r)),
    {
        match self.0.present_text("pane_id") {
            Err(e) => Err(e),
            Ok(None) => Ok(None),
            Ok(Some(s)) => match PaneId::from_str(s) {
                Ok(id) => Ok(Some(id)),
                Err(_) => Err(Snapshot::id_error("pane_id", "pane")),
            },
        }
    }

    /// Returns the pane index in its window.
    pub fn index(&self) -> (r: Result<Option<u32>, Error>)
        ensures
            unsigned_field(self@, "pane_index"@, u32::MAX as nat, u32_view(r)),
    {
        self.0.unsigned32("pane_index")
    }

    /// Returns whether this is the active pane.
    pub fn active(&self) -> (r: Result<Option<bool>, Error>)
        ensures
            flag_field(self@, "pane_active"@, bool_view(r)),
    {
        self.0.flag("pane_active")
    }

    /// Returns whether the process running in the pane is dead.
    pub fn dead(&self) -> (r: Result<Option<bool>, Error>)
        ensures
            flag_field(self@, "pane_dead"@, bool_view(r)),
    {
        self.0.flag("pane_dead")
    }

    /// Returns the pane's current path.
    pub fn current_path(&self) -> (r: Option<&TmuxText>)
        ensures
            text_field(self@, "pane_current_path"@, r),
    {
        self.0.get("pane_current_path")
    }

    /// Returns the pane's current command.
    pub fn current_command(&self) -> (r: Option<&TmuxText>)
        ensures
            text_field(self@, "pane_current_command"@, r),
    {
        self.0.get("pane_current_command")
    }

    /// Returns the pane width.
    pub fn width(&self) -> (r: Result<Option<u64>, Error>)
        ensures
            unsigned_field(self@, "pane_width"@, u64::MAX as nat, u64_view(r)),
    {
        self.0.unsigned("pane_width", u64::MAX)
    }

    /// Returns the pane height.
    pub fn height(&self) -> (r: Result<Option<u64>, Error>)
        ensures
            unsigned_field(self@, "pane_height"@, u64::MAX as nat, u64_view(r)),
    {
        self.0.unsigned("pane_height", u64::MAX)
    }

    /// Returns the pane process ID.
    pub fn pid(&self) -> (r: Result<Option<u64>, Error>)
        ensures
            unsigned_field(self@, "pane_pid"@, u64::MAX as nat, u64_view(r)),
    {
        self.0.unsigned("pane_pid", u64::MAX)
    }

    /// Returns populated history lines.
    pub fn history_size(&self) -> (r: Result<Option<u64>, Error>)
        ensures
            unsigned_field(self@, "history_size"@, u64::MAX as nat, u64_view(r)),
    {
        self.0.unsigned("history_size", u64::MAX)
    }

    /// Returns the history limit.
    pub fn history_limit(&self) -> (r: Result<Option<u64>, Error>)
        ensures
            unsigned_field(self@, "history_limit"@, u64::MAX as nat, u64_view(r)),
    {
        self.0.unsigned("history_limit", u64::MAX)
    }

    /// Returns history bytes.
    pub fn history_bytes(&self) -> (r: Result<Option<u64>, Error>)
        ensures
            unsigned_field(self@, "history_bytes"@, u64::MAX as nat, u64_view(r)),
    {
        self.0.unsigned("history_bytes", u64::MAX)
    }

    /// Returns the cursor x coordinate.
    pub fn cursor_x(&self) -> (r: Result<Option<u64>, Error>)
        ensures
            unsigned_field(self@, "cursor_x"@, u64::MAX as nat, u64_view(r)),
    {
        self.0.unsigned("cursor_x", u64::MAX)
    }

    /// Returns the cursor y coordinate.
    pub fn cursor_y(&self) -> (r: Result<Option<u64>, Error>)
        ensures
            unsigned_field(self@, "cursor_y"@, u64::MAX as nat, u64_view(r)),
    {
        self.0.unsigned("cursor_y", u64::MAX)
    }

    /// Returns the upper scroll boundary.
    pub fn scroll_region_upper(&self) -> (r: Result<Option<u64>, Error>)
        ensures
            unsigned_field(self@, "scroll_region_upper"@, u64::MAX as nat, u64_view(r)),
    {
        self.0.unsigned("scroll_region_upper", u64::MAX)
    }

    /// Returns the lower scroll boundary.
    pub fn scroll_region_lower(&self) -> (r: Result<Option<u64>, Error>)
        ensures
            unsigned_field(self@, "scroll_region_lower"@, u64::MAX as nat, u64_view(r)),
    {
        self.0.unsigned("scroll_region_lower", u64::MAX)
    }

    /// Returns paste-buffer progress on tmux 3.7+.
    pub fn paste_buffer_progress(&self) -> (r: Result<Option<u64>, Error>)
        ensures
            unsigned_field(self@, "pane_pb_progress"@, u64::MAX as nat, u64_view(r)),
    {
        self.0.unsigned("pane_pb_progress", u64::MAX)
    }

    /// Returns the pipe process ID on tmux 3.7+.
    pub fn pipe_pid(&self) -> (r: Result<Option<u64>, Error>)
        ensures
            unsigned_field(self@, "pane_pipe_pid"@, u64::MAX as nat, u64_view(r)),
    {
        self.0.unsigned("pane_pipe_pid", u64::MAX)
    }

    /// Returns the dead process status.
    pub fn dead_status(&self) -> (r: Result<Option<i64>, Error>)
        ensures
            signed_field(self@, "pane_dead_status"@, i64_view(r)),
    {
        self.0.signed("pane_dead_status")
    }

    /// Returns the dead process signal on tmux 3.3+.
    pub fn dead_signal(&self) -> (r: Result<Option<i64>, Error>)
        ensures
            signed_field(self@, "pane_dead_signal"@, i64_view(r)),
    {
        self.0.signed("pane_dead_signal")
    }

    /// Returns the death Unix timestamp on tmux 3.3+.
    pub fn dead_time(&self) -> (r: Result<Option<i64>, Error>)
        ensures
            signed_field(self@, "pane_dead_time"@, i64_view(r)),
    {
        self.0.signed("pane_dead_time")
    }

    /// Returns the floating x coordinate on tmux 3.7+.
    pub fn x(&self) -> (r: Result<Option<i64>, Error>)
        ensures
            signed_field(self@, "pane_x"@, i64_view(r)),
    {
        self.0.signed("pane_x")
    }

    /// Returns the floating y coordinate on tmux 3.7+.
    pub fn y(&self) -> (r: Result<Option<i64>, Error>)
        ensures
            signed_field(self@, "pane_y"@, i64_view(r)),
    {
        self.0.signed("pane_y")
    }

    /// Returns the floating z coordinate on tmux 3.7+.
    pub fn z(&self) -> (r: Result<Option<i64>, Error>)
        ensures
            signed_field(self@, "pane_z"@, i64_view(r)),
    {
        self.0.signed("pane_z")
    }

    /// Returns whether a mode is active.
    pub fn in_mode(&self) -> (r: Result<Option<bool>, Error>)
        ensures
            flag_field(self@, "pane_in_mode"@, bool_view(r)),
    {
        self.0.flag("pane_in_mode")
    }

    /// Returns synchronized-input state.
    pub fn synchronized(&self) -> (r: Result<Option<bool>, Error>)
        ensures
            flag_field(self@, "pane_synchronized"@, bool_view(r)),
    {
        self.0.flag("pane_synchronized")
    }

    /// Returns whether pane input is disabled.
    pub fn input_off(&self) -> (r: Result<Option<bool>, Error>)
        ensures
            flag_field(self@, "pane_input_off"@, bool_view(r)),
    {
        self.0.flag("pane_input_off")
    }

    /// Returns whether changes are unseen.
    pub fn unseen_changes(&self) -> (r: Result<Option<bool>, Error>)
        ensures
            flag_field(self@, "pane_unseen_changes"@, bool_view(r)),
    {
        self.0.flag("pane_unseen_changes")
    }

    /// Returns whether the pane touches the left edge.
    pub fn at_left(&self) -> (r: Result<Option<bool>, Error>)
        ensures
            flag_field(self@, "pane_at_left"@, bool_view(r)),
    {
        self.0.flag("pane_at_left")
    }

    /// Returns whether the pane touches the right edge.
    pub fn at_right(&self) -> (r: Result<Option<bool>, Error>)
        ensures
            flag_field(self@, "pane_at_right"@, bool_view(r)),
    {
        self.0.flag("pane_at_right")
    }

    /// Returns whether the pane touches the top edge.
    pub fn at_top(&self) -> (r: Result<Option<bool>, Error>)
        ensures
            flag_field(self@, "pane_at_top"@, bool_view(r)),
    {
        self.0.flag("pane_at_top")
    }

    /// Returns whether the pane touches the bottom edge.
    pub fn at_bottom(&self) -> (r: Result<Option<bool>, Error>)
        ensures
            flag_field(self@, "pane_at_bottom"@, bool_view(r)),
    {
        self.0.flag("pane_at_bottom")
    }

    /// Returns alternate-screen state.
    pub fn alternate_on(&self) -> (r: Result<Option<bool>, Error>)
        ensures
            flag_field(self@, "alternate_on"@, bool_view(r)),
    {
        self.0.flag("alternate_on")
    }

    /// Returns cursor visibility.
    pub fn cursor_visible(&self) -> (r: Result<Option<bool>, Error>)
        ensures
            flag_field(self@, "cursor_flag"@, bool_view(r)),
    {
        self.0.flag("cursor_flag")
    }

    /// Returns insert mode.
    pub fn insert_mode(&self) -> (r: Result<Option<bool>, Error>)
        ensures
            flag_field(self@, "insert_flag"@, bool_view(r)),
    {
        self.0.flag("insert_flag")
    }

    /// Returns keypad cursor mode.
    pub fn keypad_cursor(&self) -> (r: Result<Option<bool>, Error>)
        ensures
            flag_field(self@, "keypad_cursor_flag"@, bool_view(r)),
    {
        self.0.flag("keypad_cursor_flag")
    }

    /// Returns keypad mode.
    pub fn keypad(&self) -> (r: Result<Option<bool>, Error>)
        ensures
            flag_field(self@, "keypad_flag"@, bool_view(r)),
    {
        self.0.flag("keypad_flag")
    }

    /// Returns line-wrap mode.
    pub fn wrap(&self) -> (r: Result<Option<bool>, Error>)
        ensures
            flag_field(self@, "wrap_flag"@, bool_view(r)),
    {
        self.0.flag("wrap_flag")
    }

    /// Returns standard mouse mode.
    pub fn mouse_standard(&self) -> (r: Result<Option<bool>, Error>)
        ensures
            flag_field(self@, "mouse_standard_flag"@, bool_view(r)),
    {
        self.0.flag("mouse_standard_flag")
    }

    /// Returns button mouse mode.
    pub fn mouse_button(&self) -> (r: Result<Option<bool>, Error>)
        ensures
            flag_field(self@, "mouse_button_flag"@, bool_view(r)),
    {
        self.0.flag("mouse_button_flag")
    }

    /// Returns any-event mouse mode.
    pub fn mouse_any(&self) -> (r: Result<Option<bool>, Error>)
        ensures
            flag_field(self@, "mouse_any_flag"@, bool_view(r)),
    {
        self.0.flag("mouse_any_flag")
    }

    /// Returns UTF-8 mouse mode.
    pub fn mouse_utf8(&self) -> (r: Result<Option<bool>, Error>)
        ensures
            flag_field(self@, "mouse_utf8_flag"@, bool_view(r)),
    {
        self.0.flag("mouse_utf8_flag")
    }

    /// Returns floating-pane state on tmux 3.7+.
    pub fn floating(&self) -> (r: Result<Option<bool>, Error>)
        ensures
            flag_field(self@, "pane_floating_flag"@, bool_view(r)),
    {
        self.0.flag("pane_floating_flag")
    }

    /// Returns pane zoom state on tmux 3.7+.
    pub fn zoomed(&self) -> (r: Result<Option<bool>, Error>)
        ensures
            flag_field(self@, "pane_zoomed_flag"@, bool_view(r)),
    {
        self.0.flag("pane_zoomed_flag")
    }

    /// Returns bracketed-paste state on tmux 3.7+.
    pub fn bracketed_paste(&self) -> (r: Result<Option<bool>, Error>)
        ensures
            flag_field(self@, "bracket_paste_flag"@, bool_view(r)),
    {
        self.0.flag("bracket_paste_flag")
    }

    /// Returns synchronized-output state on tmux 3.7+.
    pub fn synchronized_output(&self) -> (r: Result<Option<bool>, Error>)
        ensures
            flag_field(self@, "synchronized_output_flag"@, bool_view(r)),
    {
        self.0.flag("synchronized_output_flag")
    }

    /// Returns the pane title.
    pub fn title(&self) -> (r: Option<&TmuxText>)
        ensures
            text_field(self@, "pane_title"@, r),
    {
        self.0.get("pane_title")
    }

    /// Returns the pane TTY.
    pub fn tty(&self) -> (r: Option<&TmuxText>)
        ensures
            text_field(self@, "pane_tty"@, r),
    {
        self.0.get("pane_tty")
    }

    /// Returns the initial command.
    pub fn start_command(&self) -> (r: Option<&TmuxText>)
        ensures
            text_field(self@, "pane_start_command"@, r),
    {
        self.0.get("pane_start_command")
    }

    /// Returns the initial path.
    pub fn start_path(&self) -> (r: Option<&TmuxText>)
        ensures
            text_field(self@, "pane_start_path"@, r),
    {
        self.0.get("pane_start_path")
    }

    /// Returns pane flags on tmux 3.7+.
    pub fn flags(&self) -> (r: Option<&TmuxText>)
        ensures
            text_field(self@, "pane_flags"@, r),
    {
        self.0.get("pane_flags")
    }

    /// Returns paste-buffer state on tmux 3.7+.
    pub fn paste_buffer_state(&self) -> (r: Option<&TmuxText>)
        ensures
            text_field(self@, "pane_pb_state"@, r),
    {
        self.0.get("pane_pb_state")
    }

}

/// An owned tmux client field snapshot.
#[derive(Clone, Debug)]
pub struct ClientSnapshot(Snapshot);

impl PartialEq for ClientSnapshot {
    fn eq(&self, other: &Self) -> (r: bool) {
        self.0 == other.0
    }
}

impl vstd::std_specs::cmp::PartialEqSpecImpl for ClientSnapshot {
    open spec fn obeys_eq_spec() -> bool {
        true
    }

    open spec fn eq_spec(&self, other: &Self) -> bool {
        self@ == other@
    }
}

impl Eq for ClientSnapshot {}

impl View for ClientSnapshot {
    type V = Map<Seq<char>, Seq<u8>>;

    closed spec fn view(&self) -> Map<Seq<char>, Seq<u8>> {
        self.0@
    }
}

impl SnapshotFields for ClientSnapshot {
    open spec fn field_bytes(&self) -> Map<Seq<char>, Seq<u8>> {
        self@
    }

    fn raw_field(&self, descriptor: &FormatDescriptor) -> (r: Option<&TmuxText>) {
        self.get(descriptor.token())
    }
}

impl ClientSnapshot {
    /// Creates a snapshot from one listing row.
    pub fn new(fields: StrMap<TmuxText>) -> (r: Self)
        ensures
            r@ == row_bytes(fields@),
    {
        ClientSnapshot(Snapshot::new(fields))
    }

    /// Returns a byte-preserving field by tmux token name.
    pub fn get(&self, token: &str) -> (r: Option<&TmuxText>)
        ensures
            text_field(self@, token@, r),
    {
        self.0.get(token)
    }

    /// The fields selected for the connected tmux version, in token order.
    pub fn iter(&self) -> (r: &[(String, TmuxText)])
        ensures
            row_bytes(crate::strmap::pairs_map(r@.map_values(|e: (String, TmuxText)| (e.0@, e.1)))) == self@,
    {
        self.0.iter()
    }


    /// Returns the tmux client name.
    pub fn name(&self) -> (r: Result<Option<ClientName>, Error>)
        ensures
            !present(self@, "client_name"@) ==> (r matches Ok(None)),
            present(self@, "client_name"@) ==> (r matches Ok(Some(n)) && n@ == self@["client_name"@]),
    {
        match self.0.get("client_name") {
            None => Ok(None),
            Some(value) => {
                if value.is_empty() {
                    return Ok(None);
                }
                match ClientName::new(value.clone()) {
                    Ok(n) => Ok(Some(n)),
                    Err(e) => Err(e),
                }
            },
        }
    }

    /// Returns the attached session name, if any.
    pub fn session_name(&self) -> (r: Result<Option<SessionName>, Error>)
        ensures
            !present(self@, "client_session"@) ==> (r matches Ok(None)),
            present(self@, "client_session"@) ==> {
                let text = utf8_lossy(self@["client_session"@]);
                &&& valid_session_name(text) ==> (r matches Ok(Some(n)) && n@ == text)
                &&& !valid_session_name(text) ==> (r matches Err(e) && e@ == ErrorView::InvalidSessionName(text))
            },
    {
        match self.0.get("client_session") {
            None => Ok(None),
            Some(value) => {
                if value.is_empty() {
                    return Ok(None);
                }
                match SessionName::from_string(value.to_string_lossy()) {
                    Ok(n) => Ok(Some(n)),
                    Err(e) => Err(e),
                }
            },
        }
    }

    /// Returns whether this client is read-only.
    pub fn read_only(&self) -> (r: Result<Option<bool>, Error>)
        ensures
            flag_field(self@, "client_readonly"@, bool_view(r)),
    {
        self.0.flag("client_readonly")
    }

    /// Returns the creation Unix timestamp.
    pub fn created(&self) -> (r: Result<Option<u64>, Error>)
        ensures
            unsigned_field(self@, "client_created"@, u64::MAX as nat, u64_view(r)),
    {
        self.0.unsigned("client_created", u64::MAX)
    }

    /// Returns the last-activity Unix timestamp.
    pub fn activity(&self) -> (r: Result<Option<u64>, Error>)
        ensures
            unsigned_field(self@, "client_activity"@, u64::MAX as nat, u64_view(r)),
    {
        self.0.unsigned("client_activity", u64::MAX)
    }

    /// Returns the terminal width.
    pub fn width(&self) -> (r: Result<Option<u64>, Error>)
        ensures
            unsigned_field(self@, "client_width"@, u64::MAX as nat, u64_view(r)),
    {
        self.0.unsigned("client_width", u64::MAX)
    }

    /// Returns the terminal height.
    pub fn height(&self) -> (r: Result<Option<u64>, Error>)
        ensures
            unsigned_field(self@, "client_height"@, u64::MAX as nat, u64_view(r)),
    {
        self.0.unsigned("client_height", u64::MAX)
    }

    /// Returns the client process ID.
    pub fn pid(&self) -> (r: Result<Option<u64>, Error>)
        ensures
            unsigned_field(self@, "client_pid"@, u64::MAX as nat, u64_view(r)),
    {
        self.0.unsigned("client_pid", u64::MAX)
    }

    /// Returns whether the prefix is active.
    pub fn prefix(&self) -> (r: Result<Option<bool>, Error>)
        ensures
            flag_field(self@, "client_prefix"@, bool_view(r)),
    {
        self.0.flag("client_prefix")
    }

    /// Returns UTF-8 support.
    pub fn utf8(&self) -> (r: Result<Option<bool>, Error>)
        ensures
            flag_field(self@, "client_utf8"@, bool_view(r)),
    {
        self.0.flag("client_utf8")
    }

    /// Returns control-mode state.
    pub fn control_mode(&self) -> (r: Result<Option<bool>, Error>)
        ensures
            flag_field(self@, "client_control_mode"@, bool_view(r)),
    {
        self.0.flag("client_control_mode")
    }

    /// Returns the client TTY.
    pub fn tty(&self) -> (r: Option<&TmuxText>)
        ensures
            text_field(self@, "client_tty"@, r),
    {
        self.0.get("client_tty")
    }

    /// Returns the terminal name.
    pub fn terminal_name(&self) -> (r: Option<&TmuxText>)
        ensures
            text_field(self@, "client_termname"@, r),
    {
        self.0.get("client_termname")
    }

    /// Returns the previous session name.
    pub fn last_session(&self) -> (r: Option<&TmuxText>)
        ensures
            text_field(self@, "client_last_session"@, r),
    {
        self.0.get("client_last_session")
    }

    /// Returns client flags.
    pub fn flags(&self) -> (r: Option<&TmuxText>)
        ensures
            text_field(self@, "client_flags"@, r),
    {
        self.0.get("client_flags")
    }

}

/// Views of a session identity reading.
pub open spec fn id_view_session(r: Result<Option<SessionId>, Error>) -> Result<Option<u64>, ErrorView> {
    match r {
        Ok(Some(id)) => Ok(Some(id@)),
        Ok(None) => Ok(None),
        Err(e) => Err(e@),
    }
}

/// Views of a window identity reading.
pub open spec fn id_view_window(r: Result<Option<WindowId>, Error>) -> Result<Option<u64>, ErrorView> {
    match r {
        Ok(Some(id)) => Ok(Some(id@)),
        Ok(None) => Ok(None),
        Err(e) => Err(e@),
    }
}

/// Views of a pane identity reading.
pub open spec fn id_view_pane(r: Result<Option<PaneId>, Error>) -> Result<Option<u64>, ErrorView> {
    match r {
        Ok(Some(id)) => Ok(Some(id@)),
        Ok(None) => Ok(None),
        Err(e) => Err(e@),
    }
}

/// How decoding a listing row fails: with an exact error, or with a decoding
/// error of the given context whose message is the standard library's UTF-8
/// error description.
pub enum RowError {
    Exact(ErrorView),
    Utf8(Seq<char>),
}

/// Whether an error is the one a row failure describes.
pub open spec fn row_error_matches(f: RowError, e: ErrorView) -> bool {
    match f {
        RowError::Exact(x) => e == x,
        RowError::Utf8(c) => crate::server::decode_context(e) == Some(c),
    }
}

/// A required identity field of a row, read as a snapshot reads it.
pub open spec fn required_id(m: Map<Seq<char>, Seq<u8>>, token: Seq<char>, prefix: char, kind: Seq<char>, empty: ErrorView) -> Result<u64, RowError> {
    if !present(m, token) {
        Err(RowError::Exact(empty))
    } else if !valid_utf8(m[token]) {
        Err(RowError::Utf8("snapshot UTF-8 field"@))
    } else {
        match parse_id(prefix, decode_utf8(m[token])) {
            Some(n) => Ok(n),
            None => Err(RowError::Exact(typed_field_error(token, "invalid "@ + kind + " ID"@))),
        }
    }
}

/// A parent identity of a pane row: present, UTF-8, and a valid identity.
pub open spec fn parent_id(m: Map<Seq<char>, Seq<u8>>, token: Seq<char>, prefix: char, kind: Seq<char>, context: Seq<char>) -> Result<u64, RowError> {
    if !m.contains_key(token) {
        Err(RowError::Exact(decode_error(context, token + " was absent"@)))
    } else if !valid_utf8(m[token]) {
        Err(RowError::Utf8(context))
    } else {
        match parse_id(prefix, decode_utf8(m[token])) {
            Some(n) => Ok(n),
            None => Err(RowError::Exact(decode_error(context, "invalid "@ + kind + " ID"@))),
        }
    }
}

/// What a pane row gives: the pane, its session and its window.
pub open spec fn pane_row(m: Map<Seq<char>, Seq<u8>>) -> Result<(u64, u64, u64), RowError> {
    match required_id(m, "pane_id"@, '%', "pane"@, decode_error("pane row"@, "pane_id was empty"@)) {
        Err(e) => Err(e),
        Ok(p) => match parent_id(m, "session_id"@, '$', "session"@, "pane session ID"@) {
            Err(e) => Err(e),
            Ok(s) => match parent_id(m, "window_id"@, '@', "window"@, "pane window ID"@) {
                Err(e) => Err(e),
                Ok(w) => Ok((p, s, w)),
            },
        },
    }
}

fn parent_id_exec(snapshot: &PaneSnapshot, token: &'static str, prefix: char, kind: &'static str, context: &'static str) -> (r: Result<u64, Error>)
    ensures
        match parent_id(snapshot@, token@, prefix, kind@, context@) {
            Ok(n) => r == Ok::<u64, Error>(n),
            Err(f) => r matches Err(e) && row_error_matches(f, e@),
        },
{
    let value = match snapshot.get(token) {
        Some(v) => v,
        None => {
            let mut message = owned(token);
            append_str(&mut message, " was absent");
            return Err(Error::Decode { context, message });
        },
    };
    let s = match value.to_str() {
        Ok(s) => s,
        Err(e) => return Err(Error::Decode { context, message: utf8_error_text(&e) }),
    };
    let chars = chars_of(s);
    let ok = chars.len() > 0 && chars[0] == prefix;
    if ok {
        let digits = crate::scan::slice_chars(chars.as_slice(), 1, chars.len());
        assert(digits@ =~= s@.drop_first());
        match parse_unsigned_chars(digits.as_slice(), u64::MAX) {
            Ok(n) => return Ok(n),
            Err(_) => {},
        }
    }
    let mut message = owned("invalid ");
    append_str(&mut message, kind);
    append_str(&mut message, " ID");
    Err(Error::Decode { context, message })
}

/// Reads the identities of a pane row: the pane, its session and its window.
pub fn pane_identity(snapshot: &PaneSnapshot) -> (r: Result<(PaneId, SessionId, WindowId), Error>)
    ensures
        match pane_row(snapshot@) {
            Ok((p, s, w)) => r matches Ok((a, b, c)) && a@ == p && b@ == s && c@ == w,
            Err(f) => r matches Err(e) && row_error_matches(f, e@),
        },
{
    let pane = match snapshot.id() {
        Err(e) => return Err(e),
        Ok(None) => return Err(Error::Decode { context: "pane row", message: owned("pane_id was empty") }),
        Ok(Some(p)) => p,
    };
    let session = match parent_id_exec(snapshot, "session_id", '$', "session", "pane session ID") {
        Err(e) => return Err(e),
        Ok(n) => SessionId::new(n),
    };
    let window = match parent_id_exec(snapshot, "window_id", '@', "window", "pane window ID") {
        Err(e) => return Err(e),
        Ok(n) => WindowId::new(n),
    };
    Ok((pane, session, window))
}

/// What a window row gives: the window, its session and its index there.
pub open spec fn window_row(m: Map<Seq<char>, Seq<u8>>) -> Result<(u64, u64, nat), RowError> {
    match required_id(m, "window_id"@, '@', "window"@, decode_error("window row"@, "window_id was empty"@)) {
        Err(e) => Err(e),
        Ok(w) => if !m.contains_key("session_id"@) {
            Err(RowError::Exact(decode_error("window row"@, "session_id was absent"@)))
        } else if !valid_utf8(m["session_id"@]) {
            Err(RowError::Utf8("window session ID"@))
        } else {
            match parse_id('$', decode_utf8(m["session_id"@])) {
                None => Err(RowError::Exact(crate::target::invalid_id("session", decode_utf8(m["session_id"@])))),
                Some(s) => if !present(m, "window_index"@) {
                    Err(RowError::Exact(decode_error("window row"@, "window_index was empty"@)))
                } else if !valid_utf8(m["window_index"@]) {
                    Err(RowError::Utf8("snapshot UTF-8 field"@))
                } else {
                    match parse_unsigned(decode_utf8(m["window_index"@]), u32::MAX as nat) {
                        Err(k) => Err(RowError::Exact(typed_field_error("window_index"@, int_error_text(k)))),
                        Ok(i) => Ok((w, s, i)),
                    }
                },
            }
        },
    }
}

/// Reads the identities of a window row: the window, its session and its index there.
pub fn window_identity(snapshot: &WindowSnapshot) -> (r: Result<(WindowId, SessionId, u32), Error>)
    ensures
        match window_row(snapshot@) {
            Ok((w, s, i)) => r matches Ok((a, b, c)) && a@ == w && b@ == s && c == i,
            Err(f) => r matches Err(e) && row_error_matches(f, e@),
        },
{
    let window = match snapshot.id() {
        Err(e) => return Err(e),
        Ok(None) => return Err(Error::Decode { context: "window row", message: owned("window_id was empty") }),
        Ok(Some(w)) => w,
    };
    let value = match snapshot.get("session_id") {
        Some(v) => v,
        None => return Err(Error::Decode { context: "window row", message: owned("session_id was absent") }),
    };
    let s = match value.to_str() {
        Ok(s) => s,
        Err(e) => return Err(Error::Decode { context: "window session ID", message: utf8_error_text(&e) }),
    };
    let session = match SessionId::from_str(s) {
        Ok(id) => id,
        Err(e) => return Err(e),
    };
    let index = match snapshot.index() {
        Err(e) => return Err(e),
        Ok(None) => return Err(Error::Decode { context: "window row", message: owned("window_index was empty") }),
        Ok(Some(i)) => i,
    };
    Ok((window, session, index))
}

/// What a session row gives: the session and its name, if the row names one.
pub fn session_identity(snapshot: &SessionSnapshot) -> (r: Result<(SessionId, Option<SessionName>), Error>)
    ensures
        match required_id(snapshot@, "session_id"@, '$', "session"@, decode_error("session row"@, "session_id was empty"@)) {
            Err(f) => r matches Err(e) && row_error_matches(f, e@),
            Ok(id) => if !present(snapshot@, "session_name"@) {
                r matches Ok((a, None)) && a@ == id
            } else if valid_session_name(utf8_lossy(snapshot@["session_name"@])) {
                r matches Ok((a, Some(n))) && a@ == id && n@ == utf8_lossy(snapshot@["session_name"@])
            } else {
                r matches Err(e) && e@ == ErrorView::InvalidSessionName(utf8_lossy(snapshot@["session_name"@]))
            },
        },
{
    let id = match snapshot.id() {
        Err(e) => return Err(e),
        Ok(None) => return Err(Error::Decode { context: "session row", message: owned("session_id was empty") }),
        Ok(Some(i)) => i,
    };
    match snapshot.name() {
        Err(e) => Err(e),
        Ok(n) => Ok((id, n)),
    }
}

/// What a client row gives: the client's name and its session's name, if any.
pub fn client_identity(snapshot: &ClientSnapshot) -> (r: Result<(ClientName, Option<SessionName>), Error>)
    ensures
        !present(snapshot@, "client_name"@) ==> (r matches Err(e) && e@ == decode_error("client row"@, "client_name was empty"@)),
        present(snapshot@, "client_name"@) ==> (if !present(snapshot@, "client_session"@) {
            r matches Ok((n, None)) && n@ == snapshot@["client_name"@]
        } else if valid_session_name(utf8_lossy(snapshot@["client_session"@])) {
            r matches Ok((n, Some(s))) && n@ == snapshot@["client_name"@] && s@ == utf8_lossy(snapshot@["client_session"@])
        } else {
            r matches Err(e) && e@ == ErrorView::InvalidSessionName(utf8_lossy(snapshot@["client_session"@]))
        }),
{
    let name = match snapshot.name() {
        Err(e) => return Err(e),
        Ok(None) => return Err(Error::Decode { context: "client row", message: owned("client_name was empty") }),
        Ok(Some(n)) => n,
    };
    match snapshot.session_name() {
        Err(e) => Err(e),
        Ok(s) => Ok((name, s)),
    }
}

/// An optional identity field of a client row: absent or empty is none.
pub open spec fn optional_id(m: Map<Seq<char>, Seq<u8>>, token: Seq<char>, prefix: char, kind: Seq<char>, context: Seq<char>) -> Result<Option<u64>, RowError> {
    if !present(m, token) {
        Ok(None)
    } else if !valid_utf8(m[token]) {
        Err(RowError::Utf8(context))
    } else {
        match parse_id(prefix, decode_utf8(m[token])) {
            Some(n) => Ok(Some(n)),
            None => Err(RowError::Exact(decode_error(context, "invalid "@ + kind + " ID"@))),
        }
    }
}

fn optional_id_exec(snapshot: &ClientSnapshot, token: &'static str, prefix: char, kind: &'static str, context: &'static str) -> (r: Result<Option<u64>, Error>)
    ensures
        match optional_id(snapshot@, token@, prefix, kind@, context@) {
            Ok(n) => r == Ok::<Option<u64>, Error>(n),
            Err(f) => r matches Err(e) && row_error_matches(f, e@),
        },
{
    let value = match snapshot.get(token) {
        Some(v) => v,
        None => return Ok(None),
    };
    if value.is_empty() {
        return Ok(None);
    }
    let s = match value.to_str() {
        Ok(s) => s,
        Err(e) => return Err(Error::Decode { context, message: utf8_error_text(&e) }),
    };
    let chars = chars_of(s);
    if chars.len() > 0 && chars[0] == prefix {
        let digits = crate::scan::slice_chars(chars.as_slice(), 1, chars.len());
        assert(digits@ =~= s@.drop_first());
        match parse_unsigned_chars(digits.as_slice(), u64::MAX) {
            Ok(n) => return Ok(Some(n)),
            Err(_) => {},
        }
    }
    let mut message = owned("invalid ");
    append_str(&mut message, kind);
    append_str(&mut message, " ID");
    Err(Error::Decode { context, message })
}

/// Reads the window a client row shows, if any.
pub fn client_window_id(snapshot: &ClientSnapshot) -> (r: Result<Option<WindowId>, Error>)
    ensures
        match optional_id(snapshot@, "window_id"@, '@', "window"@, "client window ID"@) {
            Ok(Some(n)) => r matches Ok(Some(w)) && w@ == n,
            Ok(None) => r matches Ok(None),
            Err(f) => r matches Err(e) && row_error_matches(f, e@),
        },
{
    match optional_id_exec(snapshot, "window_id", '@', "window", "client window ID") {
        Ok(Some(n)) => Ok(Some(WindowId::new(n))),
        Ok(None) => Ok(None),
        Err(e) => Err(e),
    }
}

/// Reads the pane a client row shows, if any.
pub fn client_pane_id(snapshot: &ClientSnapshot) -> (r: Result<Option<PaneId>, Error>)
    ensures
        match optional_id(snapshot@, "pane_id"@, '%', "pane"@, "client pane ID"@) {
            Ok(Some(n)) => r matches Ok(Some(p)) && p@ == n,
            Ok(None) => r matches Ok(None),
            Err(f) => r matches Err(e) && row_error_matches(f, e@),
        },
{
    match optional_id_exec(snapshot, "pane_id", '%', "pane", "client pane ID") {
        Ok(Some(n)) => Ok(Some(PaneId::new(n))),
        Ok(None) => Ok(None),
        Err(e) => Err(e),
    }
}

impl Default for SessionSnapshot {
    /// A snapshot with no fields.
    fn default() -> (r: Self)
        ensures
            r@ == Map::<Seq<char>, Seq<u8>>::empty(),
    {
        let r = SessionSnapshot::new(StrMap::new());
        assert(r@ =~= Map::<Seq<char>, Seq<u8>>::empty());
        r
    }
}

impl Default for WindowSnapshot {
    /// A snapshot with no fields.
    fn default() -> (r: Self)
        ensures
            r@ == Map::<Seq<char>, Seq<u8>>::empty(),
    {
        let r = WindowSnapshot::new(StrMap::new());
        assert(r@ =~= Map::<Seq<char>, Seq<u8>>::empty());
        r
    }
}

impl Default for PaneSnapshot {
    /// A snapshot with no fields.
    fn default() -> (r: Self)
        ensures
            r@ == Map::<Seq<char>, Seq<u8>>::empty(),
    {
        let r = PaneSnapshot::new(StrMap::new());
        assert(r@ =~= Map::<Seq<char>, Seq<u8>>::empty());
        r
    }
}

impl Default for ClientSnapshot {
    /// A snapshot with no fields.
    fn default() -> (r: Self)
        ensures
            r@ == Map::<Seq<char>, Seq<u8>>::empty(),
    {
        let r = ClientSnapshot::new(StrMap::new());
        assert(r@ =~= Map::<Seq<char>, Seq<u8>>::empty());
        r
    }
}

} // verus!
