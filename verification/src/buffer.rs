//! Paste-buffer names, listing rows, and the commands of buffer operations.

use vstd::prelude::*;
use vstd::utf8::{decode_utf8, encode_utf8, valid_utf8};
use crate::command::{command_with, flag_if, hidden_bytes, option_pair, plain, plain_bytes, text_opt, with_args, Command, CommandView};
use crate::error::{invalid_argument, invalid_argument_error, Error, ErrorView, ObjectKind};
use crate::formats::{decode_error, NativeFilter};
use crate::numeric::{int_error_message, int_error_text, parse_unsigned, parse_unsigned_chars};
use crate::server::{decode_context, str_opt, str_text};
use crate::strmap::StrMap;
use crate::text::{chars_of, owned, utf8_error_text, utf8_lossy, TmuxText};

verus! {

/// A buffer name is acceptable when it is non-empty and holds no NUL byte.
pub open spec fn valid_buffer_name(b: Seq<u8>) -> bool {
    b.len() > 0 && !b.contains(0u8)
}

/// A validated tmux paste-buffer name.
#[derive(Debug, Hash, PartialOrd, Ord)]
pub struct BufferName(TmuxText);

impl View for BufferName {
    type V = Seq<u8>;

    closed spec fn view(&self) -> Seq<u8> {
        self.0@
    }
}

fn contains_nul(b: &[u8]) -> (r: bool)
    ensures
        r == b@.contains(0u8),
{
    let mut k: usize = 0;
    while k < b.len()
        invariant
            k <= b@.len(),
            forall|j: int| 0 <= j < k ==> b@[j] != 0u8,
        decreases b.len() - k,
    {
        if b[k] == 0u8 {
            assert(b@[k as int] == 0u8);
            return true;
        }
        k = k + 1;
    }
    false
}

impl BufferName {
    #[verifier::type_invariant]
    spec fn wf(&self) -> bool {
        valid_buffer_name(self.0@)
    }

    /// Validates a buffer name.
    pub fn new(value: TmuxText) -> (r: Result<Self, Error>)
        ensures
            valid_buffer_name(value@) ==> (r matches Ok(n) && n@ == value@),
            !valid_buffer_name(value@) ==> (r matches Err(e)
                && e@ == invalid_argument("buffer name", "must be non-empty and contain no NUL byte")),
    {
        if value.is_empty() || contains_nul(value.as_bytes()) {
            return Err(invalid_argument_error("buffer name", "must be non-empty and contain no NUL byte"));
        }
        Ok(BufferName(value))
    }

    /// Returns the byte-preserving name.
    pub fn as_text(&self) -> (r: &TmuxText)
        ensures
            r@ == self@,
            valid_buffer_name(self@),
    {
        proof { use_type_invariant(self); }
        &self.0
    }

    /// The name as command-argument bytes.
    pub fn to_os_string(&self) -> (r: TmuxText)
        ensures
            r@ == self@,
    {
        self.0.clone()
    }

    /// The name rendered lossily as text.
    pub fn to_string(&self) -> (r: String)
        ensures
            r@ == utf8_lossy(self@),
    {
        self.0.to_string_lossy()
    }
}

impl Clone for BufferName {
    fn clone(&self) -> (r: Self)
        ensures
            r@ == self@,
    {
        proof { use_type_invariant(self); }
        BufferName(self.0.clone())
    }
}

impl PartialEq for BufferName {
    fn eq(&self, other: &Self) -> (r: bool) {
        self.0 == other.0
    }
}

impl vstd::std_specs::cmp::PartialEqSpecImpl for BufferName {
    open spec fn obeys_eq_spec() -> bool {
        true
    }

    open spec fn eq_spec(&self, other: &Self) -> bool {
        self@ == other@
    }
}

impl Eq for BufferName {}

/// One paste buffer as a listing row describes it.
#[derive(Debug)]
pub struct BufferEntry {
    name: BufferName,
    size: u64,
    sample: TmuxText,
}

/// The mathematical content of a [`BufferEntry`].
pub struct BufferEntryView {
    pub name: Seq<u8>,
    pub size: u64,
    pub sample: Seq<u8>,
}

impl View for BufferEntry {
    type V = BufferEntryView;

    closed spec fn view(&self) -> BufferEntryView {
        BufferEntryView { name: self.name@, size: self.size, sample: self.sample@ }
    }
}

/// What a listing row of a buffer decodes to: the name and size are required,
/// the size must be a decimal `u64`, an absent sample is empty, and the name must
/// be acceptable. Errors come in that order; `Err(None)` stands for a size that
/// is not UTF-8, reported with the standard library's description.
pub open spec fn buffer_row(row: Map<Seq<char>, Seq<u8>>) -> Result<BufferEntryView, Option<ErrorView>> {
    if !row.contains_key("buffer_name"@) {
        Err(Some(decode_error("buffer row"@, "buffer_name was absent"@)))
    } else if !row.contains_key("buffer_size"@) {
        Err(Some(decode_error("buffer row"@, "buffer_size was absent"@)))
    } else if !valid_utf8(row["buffer_size"@]) {
        Err(None)
    } else {
        match parse_unsigned(decode_utf8(row["buffer_size"@]), u64::MAX as nat) {
            Err(k) => Err(Some(decode_error("buffer size"@, int_error_text(k)))),
            Ok(size) => if !valid_buffer_name(row["buffer_name"@]) {
                Err(Some(invalid_argument("buffer name", "must be non-empty and contain no NUL byte")))
            } else {
                Ok(BufferEntryView {
                    name: row["buffer_name"@],
                    size: size as u64,
                    sample: if row.contains_key("buffer_sample"@) { row["buffer_sample"@] } else { Seq::empty() },
                })
            },
        }
    }
}

impl BufferEntry {
    /// Decodes a `list-buffers` row.
    pub fn from_row(row: &StrMap<TmuxText>) -> (r: Result<Self, Error>)
        ensures
            match buffer_row(crate::formats::row_bytes(row@)) {
                Ok(v) => r matches Ok(b) && b@ == v,
                Err(Some(e)) => r matches Err(x) && x@ == e,
                Err(None) => r matches Err(x) && decode_context(x@) == Some("buffer size"@),
            },
    {
        let name = match row.get("buffer_name") {
            Some(n) => n.clone(),
            None => return Err(Error::Decode { context: "buffer row", message: owned("buffer_name was absent") }),
        };
        let size_text = match row.get("buffer_size") {
            Some(s) => s,
            None => return Err(Error::Decode { context: "buffer row", message: owned("buffer_size was absent") }),
        };
        let size_str = match size_text.to_str() {
            Ok(s) => s,
            Err(e) => return Err(Error::Decode { context: "buffer size", message: utf8_error_text(&e) }),
        };
        let chars = chars_of(size_str);
        let size = match parse_unsigned_chars(chars.as_slice(), u64::MAX) {
            Ok(n) => n,
            Err(k) => return Err(Error::Decode { context: "buffer size", message: owned(int_error_message(k)) }),
        };
        let sample = match row.get("buffer_sample") {
            Some(s) => s.clone(),
            None => {
                let t = TmuxText::new(Vec::new());
                assert(t@ =~= Seq::<u8>::empty());
                t
            },
        };
        proof {
            crate::numeric::lemma_parse_unsigned_bound(chars@, u64::MAX as nat);
        }
        match BufferName::new(name) {
            Ok(n) => Ok(BufferEntry { name: n, size, sample }),
            Err(e) => Err(e),
        }
    }

    /// Returns the buffer name.
    pub fn name(&self) -> (r: &BufferName)
        ensures
            r@ == self@.name,
    {
        &self.name
    }

    /// Returns the size in bytes.
    pub fn size(&self) -> (r: u64)
        ensures
            r == self@.size,
    {
        self.size
    }

    /// Returns tmux's sample of the contents.
    pub fn sample(&self) -> (r: &TmuxText)
        ensures
            r@ == self@.sample,
    {
        &self.sample
    }
}

/// The `-b NAME` pair of an optional buffer name.
pub open spec fn name_pair(name: Option<Seq<u8>>) -> Seq<(Seq<u8>, bool)> {
    option_pair("-b", name)
}

/// The view of an optional buffer name.
pub open spec fn name_opt(name: Option<&BufferName>) -> Option<Seq<u8>> {
    match name {
        Some(n) => Some(n@),
        None => None,
    }
}

fn name_text(name: Option<&BufferName>) -> (r: Option<TmuxText>)
    ensures
        text_opt(r) == name_opt(name),
{
    match name {
        Some(n) => Some(n.to_os_string()),
        None => None,
    }
}

/// `list-buffers` with an optional raw format and an optional native filter.
pub open spec fn list_buffers_spec(format: Option<Seq<u8>>, filter: Option<Seq<char>>) -> CommandView {
    command_with("list-buffers", option_pair("-F", format) + option_pair("-f",
        match filter { Some(f) => Some(encode_utf8(f)), None => None }))
}

/// Builds the command that lists buffers with a raw output format.
pub fn list_buffers_command(format: Option<&str>, filter: Option<&NativeFilter>) -> (r: Command)
    ensures
        r@ == list_buffers_spec(str_opt(format), match filter { Some(f) => Some(f@), None => None }),
{
    let format_text = str_text(format);
    let filter_text = match filter {
        Some(f) => Some(TmuxText::from_str(f.as_str())),
        None => None,
    };
    let base = Command::new("list-buffers").option_text("-F", &format_text);
    assert(base@.arguments =~= option_pair("-F", str_opt(format)));
    let r = base.option_text("-f", &filter_text);
    assert(r@.arguments =~= list_buffers_spec(str_opt(format), match filter { Some(f) => Some(f@), None => None }).arguments);
    r
}

/// `load-buffer` reading the data from standard input, which is sensitive.
pub open spec fn load_buffer_spec(name: Option<Seq<u8>>, data: Seq<u8>) -> CommandView {
    CommandView {
        input: Some(data),
        sensitive_input: true,
        ..command_with("load-buffer", name_pair(name) + seq![plain("-")])
    }
}

/// Builds the command that loads bytes into a named or automatic buffer.
pub fn load_buffer_command(name: Option<&BufferName>, data: TmuxText) -> (r: Command)
    ensures
        r@ == load_buffer_spec(name_opt(name), data@),
{
    let n = name_text(name);
    let base = Command::new("load-buffer").option_text("-b", &n);
    assert(base@.arguments =~= name_pair(name_opt(name)));
    let c = base.arg("-");
    assert(c@.arguments =~= name_pair(name_opt(name)) + seq![plain("-")]);
    c.sensitive_input_text(data)
}

/// `load-buffer` reading a file that tmux opens.
pub open spec fn load_buffer_file_spec(name: Option<Seq<u8>>, path: Seq<u8>) -> CommandView {
    command_with("load-buffer", name_pair(name) + seq![plain_bytes(path)])
}

/// Builds the command that loads a file into a named or automatic buffer.
pub fn load_buffer_file_command(name: Option<&BufferName>, path: TmuxText) -> (r: Command)
    ensures
        r@ == load_buffer_file_spec(name_opt(name), path@),
{
    let ghost p = path@;
    let n = name_text(name);
    let base = Command::new("load-buffer").option_text("-b", &n);
    assert(base@.arguments =~= name_pair(name_opt(name)));
    let c = base.arg_text(path);
    assert(c@.arguments =~= name_pair(name_opt(name)) + seq![plain_bytes(p)]);
    c
}

/// Sets buffer text: data holding a NUL byte cannot be an argument and goes
/// through `load-buffer`; other data is a hidden `set-buffer` argument.
pub open spec fn set_buffer_spec(name: Option<Seq<u8>>, data: Seq<u8>, append: bool) -> CommandView {
    if data.contains(0u8) {
        load_buffer_spec(name, data)
    } else {
        command_with("set-buffer", flag_if(append, "-a") + name_pair(name) + seq![hidden_bytes(data)])
    }
}

/// Builds the command that sets the contents of a named or automatic buffer.
pub fn set_buffer_command(name: Option<&BufferName>, data: TmuxText, append: bool) -> (r: Command)
    ensures
        r@ == set_buffer_spec(name_opt(name), data@, append),
{
    if contains_nul(data.as_bytes()) {
        return load_buffer_command(name, data);
    }
    let ghost d = data@;
    let n = name_text(name);
    let base = Command::new("set-buffer").flag(append, "-a");
    assert(base@.arguments =~= flag_if(append, "-a"));
    let c = base.option_text("-b", &n);
    let r = c.sensitive_arg_text(data);
    assert(r@.arguments =~= flag_if(append, "-a") + name_pair(name_opt(name)) + seq![hidden_bytes(d)]);
    r
}

/// A buffer subcommand that takes only an optional `-b NAME`.
pub open spec fn named_buffer_spec(subcommand: &str, name: Option<Seq<u8>>) -> CommandView {
    command_with(subcommand, name_pair(name))
}

/// Builds `show-buffer` for a named buffer or tmux's most recent one.
pub fn show_buffer_command(name: Option<&BufferName>) -> (r: Command)
    ensures
        r@ == named_buffer_spec("show-buffer", name_opt(name)),
{
    let n = name_text(name);
    let r = Command::new("show-buffer").option_text("-b", &n);
    assert(r@.arguments =~= name_pair(name_opt(name)));
    r
}

/// Builds `delete-buffer` for a named buffer or tmux's most recent one.
pub fn delete_buffer_command(name: Option<&BufferName>) -> (r: Command)
    ensures
        r@ == named_buffer_spec("delete-buffer", name_opt(name)),
{
    let n = name_text(name);
    let r = Command::new("delete-buffer").option_text("-b", &n);
    assert(r@.arguments =~= name_pair(name_opt(name)));
    r
}

/// `save-buffer -b NAME [-a] PATH`.
pub open spec fn save_buffer_spec(name: Seq<u8>, path: Seq<u8>, append: bool) -> CommandView {
    command_with("save-buffer", seq![plain("-b"), plain_bytes(name)] + flag_if(append, "-a") + seq![plain_bytes(path)])
}

/// Builds the command that saves a buffer to a path through tmux.
pub fn save_buffer_command(name: &BufferName, path: TmuxText, append: bool) -> (r: Command)
    ensures
        r@ == save_buffer_spec(name@, path@, append),
{
    let ghost p = path@;
    let base = Command::new("save-buffer").arg("-b").arg_text(name.to_os_string());
    assert(base@.arguments =~= seq![plain("-b"), plain_bytes(name@)]);
    let r = base.flag(append, "-a").arg_text(path);
    assert(r@.arguments =~= seq![plain("-b"), plain_bytes(name@)] + flag_if(append, "-a") + seq![plain_bytes(p)]);
    r
}

/// The entries of a sequence of decoded rows, or the first row's failure.
pub open spec fn entries_of(rows: Seq<Map<Seq<char>, Seq<u8>>>) -> Result<Seq<BufferEntryView>, Option<ErrorView>>
    decreases rows.len(),
{
    if rows.len() == 0 {
        Ok(Seq::empty())
    } else {
        match entries_of(rows.drop_last()) {
            Err(e) => Err(e),
            Ok(prefix) => match buffer_row(rows.last()) {
                Err(e) => Err(e),
                Ok(v) => Ok(prefix.push(v)),
            },
        }
    }
}

proof fn lemma_entries_stop(views: Seq<Map<Seq<char>, Seq<u8>>>, j0: int, j: int)
    requires
        0 <= j0 <= j <= views.len(),
        entries_of(views.take(j0)) is Err,
    ensures
        entries_of(views.take(j)) == entries_of(views.take(j0)),
    decreases j - j0,
{
    if j > j0 {
        lemma_entries_stop(views, j0, j - 1);
        assert(views.take(j).drop_last() =~= views.take(j - 1));
    }
}

/// Decodes every `list-buffers` row, in order, stopping at the first failure.
pub fn buffer_entries(rows: &Vec<StrMap<TmuxText>>) -> (r: Result<Vec<BufferEntry>, Error>)
    ensures
        match entries_of(rows@.map_values(|m: StrMap<TmuxText>| crate::formats::row_bytes(m@))) {
            Ok(vs) => r matches Ok(es) && es@.map_values(|e: BufferEntry| e@) == vs,
            Err(Some(e)) => r matches Err(x) && x@ == e,
            Err(None) => r matches Err(x) && decode_context(x@) == Some("buffer size"@),
        },
{
    let ghost views = rows@.map_values(|m: StrMap<TmuxText>| crate::formats::row_bytes(m@));
    let mut out: Vec<BufferEntry> = Vec::new();
    let mut k: usize = 0;
    assert(views.take(0) =~= Seq::<Map<Seq<char>, Seq<u8>>>::empty());
    assert(out@.map_values(|e: BufferEntry| e@) =~= Seq::<BufferEntryView>::empty());
    while k < rows.len()
        invariant
            k <= rows@.len(),
            views == rows@.map_values(|m: StrMap<TmuxText>| crate::formats::row_bytes(m@)),
            entries_of(views.take(k as int)) == Ok::<Seq<BufferEntryView>, Option<ErrorView>>(out@.map_values(|e: BufferEntry| e@)),
        decreases rows.len() - k,
    {
        assert(views.take(k as int + 1).drop_last() =~= views.take(k as int));
        assert(views.take(k as int + 1).last() == crate::formats::row_bytes(rows@[k as int]@));
        match BufferEntry::from_row(&rows[k]) {
            Ok(e) => {
                let ghost before = out@.map_values(|e: BufferEntry| e@);
                let ghost ev = e@;
                out.push(e);
                assert(out@.map_values(|e: BufferEntry| e@) =~= before.push(ev));
            },
            Err(e) => {
                proof { lemma_entries_stop(views, k as int + 1, views.len() as int); }
                assert(views.take(views.len() as int) =~= views);
                return Err(e);
            },
        }
        k = k + 1;
    }
    assert(views.take(k as int) =~= views);
    Ok(out)
}

/// The views of a list of entries.
pub open spec fn entry_views(entries: Seq<BufferEntry>) -> Seq<BufferEntryView> {
    entries.map_values(|e: BufferEntry| e@)
}

/// Selects the first entry with exactly `name`; none is an unknown buffer,
/// reported by the name's lossy text.
pub fn find_buffer(entries: Vec<BufferEntry>, name: &BufferName) -> (r: Result<BufferEntry, Error>)
    ensures
        match r {
            Ok(e) => exists|i: int| 0 <= i < entries@.len()
                && #[trigger] entry_views(entries@)[i].name == name@
                && e@ == entry_views(entries@)[i]
                && forall|j: int| 0 <= j < i ==> entry_views(entries@)[j].name != name@,
            Err(x) => (forall|i: int| 0 <= i < entries@.len() ==> #[trigger] entry_views(entries@)[i].name != name@)
                && x@ == (ErrorView::ObjectNotFound { kind: ObjectKind::Buffer, target: utf8_lossy(name@) }),
        },
{
    let ghost views = entry_views(entries@);
    let mut k: usize = 0;
    while k < entries.len()
        invariant
            k <= entries@.len(),
            views == entry_views(entries@),
            forall|j: int| 0 <= j < k ==> #[trigger] views[j].name != name@,
        decreases entries.len() - k,
    {
        if entries[k].name() == name {
            let mut v = entries;
            let e = v.remove(k);
            assert(views[k as int].name == name@);
            return Ok(e);
        }
        k = k + 1;
    }
    Err(Error::ObjectNotFound { kind: ObjectKind::Buffer, target: name.to_string() })
}

/// Selects tmux's most recent buffer, the first entry of a listing.
pub fn most_recent_buffer(entries: Vec<BufferEntry>) -> (r: Result<BufferEntry, Error>)
    ensures
        entries@.len() > 0 ==> (r matches Ok(e) && e@ == entries@[0]@),
        entries@.len() == 0 ==> (r matches Err(x)
            && x@ == (ErrorView::ObjectNotFound { kind: ObjectKind::Buffer, target: "most recent buffer"@ })),
{
    if entries.len() == 0 {
        return Err(Error::ObjectNotFound { kind: ObjectKind::Buffer, target: owned("most recent buffer") });
    }
    let mut v = entries;
    Ok(v.remove(0))
}

/// The buffer that a load or set produced: the named one when a name was
/// given, else the most recent one.
pub fn resulting_buffer(name: Option<&BufferName>, entries: Vec<BufferEntry>) -> (r: Result<BufferEntry, Error>)
    ensures
        match name {
            Some(n) => match r {
                Ok(e) => exists|i: int| 0 <= i < entries@.len()
                    && #[trigger] entry_views(entries@)[i].name == n@
                    && e@ == entry_views(entries@)[i]
                    && forall|j: int| 0 <= j < i ==> entry_views(entries@)[j].name != n@,
                Err(x) => (forall|i: int| 0 <= i < entries@.len() ==> #[trigger] entry_views(entries@)[i].name != n@)
                    && x@ == (ErrorView::ObjectNotFound { kind: ObjectKind::Buffer, target: utf8_lossy(n@) }),
            },
            None => (entries@.len() > 0 ==> (r matches Ok(e) && e@ == entries@[0]@))
                && (entries@.len() == 0 ==> (r matches Err(x)
                    && x@ == (ErrorView::ObjectNotFound { kind: ObjectKind::Buffer, target: "most recent buffer"@ }))),
        },
{
    match name {
        Some(n) => find_buffer(entries, n),
        None => most_recent_buffer(entries),
    }
}

} // verus!
