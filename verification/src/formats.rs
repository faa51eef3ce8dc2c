//! tmux format descriptors and structured row decoding.

use vstd::prelude::*;
use vstd::utf8::{decode_utf8, valid_utf8};
use crate::error::{Error, ErrorView};
use crate::numeric::{decimal, decimal_chars, int_error_text, parse_signed, parse_signed_chars, parse_unsigned, parse_unsigned_chars, IntErrorKind};
use crate::scan::{chars_equal, contains_char};
use crate::strmap::StrMap;
use crate::text::{append_chars, append_str, chars_of, lemma_map_push, lemma_take_push, nonempty_pieces, owned, push_char, split_nonempty, split_on, utf8_error_text, TmuxText};
use crate::version::{meets_spec, minimum_release, ReleaseVersion, ReleaseVersionView, TmuxVersion};

verus! {

/// The character that separates fields in a rendered format row.
pub const FORMAT_SEPARATOR: char = '\u{241e}';

/// The context that a format token needs to resolve.
#[derive(Clone, Copy, Debug, Eq, Hash, PartialEq, Structural)]
pub enum FormatScope {
    /// Server-global data available to every listing.
    Universal,
    /// Session data.
    Session,
    /// Window and window-link data.
    Window,
    /// Pane data.
    Pane,
    /// Attached-client data.
    Client,
    /// Paste-buffer data.
    Buffer,
    /// Runtime event data that is not safe in ordinary listings.
    Event,
    /// A command-specific context.
    Context,
}

/// The intended decoded representation of a format token.
#[derive(Clone, Copy, Debug, Eq, Hash, PartialEq, Structural)]
pub enum DecodedType {
    /// Byte-preserving text.
    Text,
    /// A tmux `0` or `1` flag.
    Bool,
    /// A signed integer.
    Signed,
    /// An unsigned integer.
    Unsigned,
    /// A Unix timestamp.
    Timestamp,
    /// A validated tmux identity.
    Id,
}

/// A value decoded according to a [`FormatDescriptor`].
#[derive(Clone, Debug, Eq, PartialEq)]
pub enum FormatValue<'a> {
    /// Byte-preserving text.
    Text(&'a TmuxText),
    /// A boolean flag.
    Bool(bool),
    /// A signed integer.
    Signed(i64),
    /// An unsigned integer.
    Unsigned(u64),
    /// A Unix timestamp.
    Timestamp(u64),
    /// An identity in its textual representation.
    Id(&'a str),
}

/// The mathematical content of a [`FormatValue`].
pub enum FormatValueView {
    Text(Seq<u8>),
    Bool(bool),
    Signed(i64),
    Unsigned(u64),
    Timestamp(u64),
    Id(Seq<char>),
}

impl<'a> View for FormatValue<'a> {
    type V = FormatValueView;

    open spec fn view(&self) -> FormatValueView {
        match self {
            FormatValue::Text(t) => FormatValueView::Text(t@),
            FormatValue::Bool(b) => FormatValueView::Bool(*b),
            FormatValue::Signed(n) => FormatValueView::Signed(*n),
            FormatValue::Unsigned(n) => FormatValueView::Unsigned(*n),
            FormatValue::Timestamp(n) => FormatValueView::Timestamp(*n),
            FormatValue::Id(s) => FormatValueView::Id(s@),
        }
    }
}

/// Metadata for one tmux format variable.
#[derive(Clone, Copy, Debug, Eq, Hash, PartialEq)]
pub struct FormatDescriptor {
    token: &'static str,
    scope: FormatScope,
    decoded: DecodedType,
    minimum: ReleaseVersion,
}

/// The mathematical content of a [`FormatDescriptor`].
pub struct FormatDescriptorView {
    pub token: Seq<char>,
    pub scope: FormatScope,
    pub decoded: DecodedType,
    pub minimum: ReleaseVersionView,
}

impl View for FormatDescriptor {
    type V = FormatDescriptorView;

    closed spec fn view(&self) -> FormatDescriptorView {
        FormatDescriptorView { token: self.token@, scope: self.scope, decoded: self.decoded, minimum: self.minimum@ }
    }
}

/// A descriptor's content from its parts.
pub open spec fn descriptor_view(token: Seq<char>, scope: FormatScope, decoded: DecodedType, minimum: ReleaseVersionView) -> FormatDescriptorView {
    FormatDescriptorView { token, scope, decoded, minimum }
}

/// The oldest supported release, which supplies most tokens.
pub open spec fn base_release() -> ReleaseVersionView {
    minimum_release()
}

/// Release 3.3.
pub open spec fn v33_release() -> ReleaseVersionView {
    ReleaseVersionView { major: 3, minor: 3, suffix: None }
}

/// Release 3.7.
pub open spec fn v37_release() -> ReleaseVersionView {
    ReleaseVersionView { major: 3, minor: 7, suffix: None }
}

/// The number of descriptors in the catalog.
pub const CATALOG_LEN: usize = 186;

/// The descriptor at a catalog position.
#[verifier::opaque]
pub open spec fn catalog_view(i: usize) -> FormatDescriptorView {
    match i {
        0 => descriptor_view("pid"@, FormatScope::Universal, DecodedType::Unsigned, base_release()),
        1 => descriptor_view("config_files"@, FormatScope::Universal, DecodedType::Text, base_release()),
        2 => descriptor_view("host"@, FormatScope::Universal, DecodedType::Text, base_release()),
        3 => descriptor_view("host_short"@, FormatScope::Universal, DecodedType::Text, base_release()),
        4 => descriptor_view("line"@, FormatScope::Universal, DecodedType::Unsigned, base_release()),
        5 => descriptor_view("next_session_id"@, FormatScope::Universal, DecodedType::Unsigned, base_release()),
        6 => descriptor_view("socket_path"@, FormatScope::Universal, DecodedType::Text, base_release()),
        7 => descriptor_view("start_time"@, FormatScope::Universal, DecodedType::Timestamp, base_release()),
        8 => descriptor_view("uid"@, FormatScope::Universal, DecodedType::Unsigned, base_release()),
        9 => descriptor_view("user"@, FormatScope::Universal, DecodedType::Text, base_release()),
        10 => descriptor_view("version"@, FormatScope::Universal, DecodedType::Text, base_release()),
        11 => descriptor_view("session_id"@, FormatScope::Session, DecodedType::Id, base_release()),
        12 => descriptor_view("session_name"@, FormatScope::Session, DecodedType::Text, base_release()),
        13 => descriptor_view("session_windows"@, FormatScope::Session, DecodedType::Unsigned, base_release()),
        14 => descriptor_view("session_width"@, FormatScope::Session, DecodedType::Unsigned, base_release()),
        15 => descriptor_view("session_height"@, FormatScope::Session, DecodedType::Unsigned, base_release()),
        16 => descriptor_view("session_created"@, FormatScope::Session, DecodedType::Timestamp, base_release()),
        17 => descriptor_view("session_created_string"@, FormatScope::Session, DecodedType::Text, base_release()),
        18 => descriptor_view("session_attached"@, FormatScope::Session, DecodedType::Unsigned, base_release()),
        19 => descriptor_view("session_activity"@, FormatScope::Session, DecodedType::Timestamp, base_release()),
        20 => descriptor_view("session_alerts"@, FormatScope::Session, DecodedType::Text, base_release()),
        21 => descriptor_view("session_attached_list"@, FormatScope::Session, DecodedType::Text, base_release()),
        22 => descriptor_view("session_format"@, FormatScope::Session, DecodedType::Text, base_release()),
        23 => descriptor_view("session_group"@, FormatScope::Session, DecodedType::Text, base_release()),
        24 => descriptor_view("session_group_attached"@, FormatScope::Session, DecodedType::Unsigned, base_release()),
        25 => descriptor_view("session_group_attached_list"@, FormatScope::Session, DecodedType::Text, base_release()),
        26 => descriptor_view("session_group_list"@, FormatScope::Session, DecodedType::Text, base_release()),
        27 => descriptor_view("session_group_many_attached"@, FormatScope::Session, DecodedType::Bool, base_release()),
        28 => descriptor_view("session_group_size"@, FormatScope::Session, DecodedType::Unsigned, base_release()),
        29 => descriptor_view("session_grouped"@, FormatScope::Session, DecodedType::Bool, base_release()),
        30 => descriptor_view("session_last_attached"@, FormatScope::Session, DecodedType::Timestamp, base_release()),
        31 => descriptor_view("session_many_attached"@, FormatScope::Session, DecodedType::Bool, base_release()),
        32 => descriptor_view("session_marked"@, FormatScope::Session, DecodedType::Bool, base_release()),
        33 => descriptor_view("session_path"@, FormatScope::Session, DecodedType::Text, base_release()),
        34 => descriptor_view("session_stack"@, FormatScope::Session, DecodedType::Text, base_release()),
        35 => descriptor_view("active_window_index"@, FormatScope::Session, DecodedType::Unsigned, base_release()),
        36 => descriptor_view("last_window_index"@, FormatScope::Session, DecodedType::Unsigned, base_release()),
        37 => descriptor_view("window_id"@, FormatScope::Window, DecodedType::Id, base_release()),
        38 => descriptor_view("window_index"@, FormatScope::Window, DecodedType::Unsigned, base_release()),
        39 => descriptor_view("window_name"@, FormatScope::Window, DecodedType::Text, base_release()),
        40 => descriptor_view("window_width"@, FormatScope::Window, DecodedType::Unsigned, base_release()),
        41 => descriptor_view("window_height"@, FormatScope::Window, DecodedType::Unsigned, base_release()),
        42 => descriptor_view("window_layout"@, FormatScope::Window, DecodedType::Text, base_release()),
        43 => descriptor_view("window_visible_layout"@, FormatScope::Window, DecodedType::Text, base_release()),
        44 => descriptor_view("window_panes"@, FormatScope::Window, DecodedType::Unsigned, base_release()),
        45 => descriptor_view("window_flags"@, FormatScope::Window, DecodedType::Text, base_release()),
        46 => descriptor_view("window_active"@, FormatScope::Window, DecodedType::Bool, base_release()),
        47 => descriptor_view("window_bell_flag"@, FormatScope::Window, DecodedType::Bool, base_release()),
        48 => descriptor_view("window_activity_flag"@, FormatScope::Window, DecodedType::Bool, base_release()),
        49 => descriptor_view("window_silence_flag"@, FormatScope::Window, DecodedType::Bool, base_release()),
        50 => descriptor_view("window_zoomed_flag"@, FormatScope::Window, DecodedType::Bool, base_release()),
        51 => descriptor_view("window_active_clients"@, FormatScope::Window, DecodedType::Unsigned, base_release()),
        52 => descriptor_view("window_active_clients_list"@, FormatScope::Window, DecodedType::Text, base_release()),
        53 => descriptor_view("window_active_sessions"@, FormatScope::Window, DecodedType::Unsigned, base_release()),
        54 => descriptor_view("window_active_sessions_list"@, FormatScope::Window, DecodedType::Text, base_release()),
        55 => descriptor_view("window_activity"@, FormatScope::Window, DecodedType::Timestamp, base_release()),
        56 => descriptor_view("window_bigger"@, FormatScope::Window, DecodedType::Bool, base_release()),
        57 => descriptor_view("window_cell_height"@, FormatScope::Window, DecodedType::Unsigned, base_release()),
        58 => descriptor_view("window_cell_width"@, FormatScope::Window, DecodedType::Unsigned, base_release()),
        59 => descriptor_view("window_end_flag"@, FormatScope::Window, DecodedType::Bool, base_release()),
        60 => descriptor_view("window_format"@, FormatScope::Window, DecodedType::Text, base_release()),
        61 => descriptor_view("window_last_flag"@, FormatScope::Window, DecodedType::Bool, base_release()),
        62 => descriptor_view("window_linked"@, FormatScope::Window, DecodedType::Bool, base_release()),
        63 => descriptor_view("window_linked_sessions"@, FormatScope::Window, DecodedType::Unsigned, base_release()),
        64 => descriptor_view("window_linked_sessions_list"@, FormatScope::Window, DecodedType::Text, base_release()),
        65 => descriptor_view("window_marked_flag"@, FormatScope::Window, DecodedType::Bool, base_release()),
        66 => descriptor_view("window_offset_x"@, FormatScope::Window, DecodedType::Signed, base_release()),
        67 => descriptor_view("window_offset_y"@, FormatScope::Window, DecodedType::Signed, base_release()),
        68 => descriptor_view("window_raw_flags"@, FormatScope::Window, DecodedType::Text, base_release()),
        69 => descriptor_view("window_stack_index"@, FormatScope::Window, DecodedType::Unsigned, base_release()),
        70 => descriptor_view("window_start_flag"@, FormatScope::Window, DecodedType::Bool, base_release()),
        71 => descriptor_view("pane_id"@, FormatScope::Pane, DecodedType::Id, base_release()),
        72 => descriptor_view("pane_index"@, FormatScope::Pane, DecodedType::Unsigned, base_release()),
        73 => descriptor_view("pane_width"@, FormatScope::Pane, DecodedType::Unsigned, base_release()),
        74 => descriptor_view("pane_height"@, FormatScope::Pane, DecodedType::Unsigned, base_release()),
        75 => descriptor_view("pane_title"@, FormatScope::Pane, DecodedType::Text, base_release()),
        76 => descriptor_view("pane_active"@, FormatScope::Pane, DecodedType::Bool, base_release()),
        77 => descriptor_view("pane_dead"@, FormatScope::Pane, DecodedType::Bool, base_release()),
        78 => descriptor_view("pane_dead_status"@, FormatScope::Pane, DecodedType::Signed, base_release()),
        79 => descriptor_view("pane_dead_signal"@, FormatScope::Pane, DecodedType::Signed, v33_release()),
        80 => descriptor_view("pane_dead_time"@, FormatScope::Pane, DecodedType::Timestamp, v33_release()),
        81 => descriptor_view("pane_in_mode"@, FormatScope::Pane, DecodedType::Bool, base_release()),
        82 => descriptor_view("pane_synchronized"@, FormatScope::Pane, DecodedType::Bool, base_release()),
        83 => descriptor_view("pane_tty"@, FormatScope::Pane, DecodedType::Text, base_release()),
        84 => descriptor_view("pane_pid"@, FormatScope::Pane, DecodedType::Unsigned, base_release()),
        85 => descriptor_view("pane_start_command"@, FormatScope::Pane, DecodedType::Text, base_release()),
        86 => descriptor_view("pane_start_path"@, FormatScope::Pane, DecodedType::Text, base_release()),
        87 => descriptor_view("pane_current_path"@, FormatScope::Pane, DecodedType::Text, base_release()),
        88 => descriptor_view("pane_current_command"@, FormatScope::Pane, DecodedType::Text, base_release()),
        89 => descriptor_view("pane_input_off"@, FormatScope::Pane, DecodedType::Bool, base_release()),
        90 => descriptor_view("pane_unseen_changes"@, FormatScope::Pane, DecodedType::Bool, base_release()),
        91 => descriptor_view("pane_at_left"@, FormatScope::Pane, DecodedType::Bool, base_release()),
        92 => descriptor_view("pane_at_right"@, FormatScope::Pane, DecodedType::Bool, base_release()),
        93 => descriptor_view("pane_at_top"@, FormatScope::Pane, DecodedType::Bool, base_release()),
        94 => descriptor_view("pane_at_bottom"@, FormatScope::Pane, DecodedType::Bool, base_release()),
        95 => descriptor_view("history_size"@, FormatScope::Pane, DecodedType::Unsigned, base_release()),
        96 => descriptor_view("history_limit"@, FormatScope::Pane, DecodedType::Unsigned, base_release()),
        97 => descriptor_view("history_bytes"@, FormatScope::Pane, DecodedType::Unsigned, base_release()),
        98 => descriptor_view("alternate_saved_x"@, FormatScope::Pane, DecodedType::Unsigned, base_release()),
        99 => descriptor_view("alternate_saved_y"@, FormatScope::Pane, DecodedType::Unsigned, base_release()),
        100 => descriptor_view("cursor_x"@, FormatScope::Pane, DecodedType::Unsigned, base_release()),
        101 => descriptor_view("cursor_y"@, FormatScope::Pane, DecodedType::Unsigned, base_release()),
        102 => descriptor_view("scroll_region_upper"@, FormatScope::Pane, DecodedType::Unsigned, base_release()),
        103 => descriptor_view("scroll_region_lower"@, FormatScope::Pane, DecodedType::Unsigned, base_release()),
        104 => descriptor_view("alternate_on"@, FormatScope::Pane, DecodedType::Bool, base_release()),
        105 => descriptor_view("cursor_flag"@, FormatScope::Pane, DecodedType::Bool, base_release()),
        106 => descriptor_view("insert_flag"@, FormatScope::Pane, DecodedType::Bool, base_release()),
        107 => descriptor_view("keypad_cursor_flag"@, FormatScope::Pane, DecodedType::Bool, base_release()),
        108 => descriptor_view("keypad_flag"@, FormatScope::Pane, DecodedType::Bool, base_release()),
        109 => descriptor_view("wrap_flag"@, FormatScope::Pane, DecodedType::Bool, base_release()),
        110 => descriptor_view("mouse_standard_flag"@, FormatScope::Pane, DecodedType::Bool, base_release()),
        111 => descriptor_view("mouse_button_flag"@, FormatScope::Pane, DecodedType::Bool, base_release()),
        112 => descriptor_view("mouse_any_flag"@, FormatScope::Pane, DecodedType::Bool, base_release()),
        113 => descriptor_view("mouse_utf8_flag"@, FormatScope::Pane, DecodedType::Bool, base_release()),
        114 => descriptor_view("cursor_character"@, FormatScope::Pane, DecodedType::Text, base_release()),
        115 => descriptor_view("mouse_all_flag"@, FormatScope::Pane, DecodedType::Bool, base_release()),
        116 => descriptor_view("mouse_sgr_flag"@, FormatScope::Pane, DecodedType::Bool, base_release()),
        117 => descriptor_view("origin_flag"@, FormatScope::Pane, DecodedType::Bool, base_release()),
        118 => descriptor_view("pane_bg"@, FormatScope::Pane, DecodedType::Text, base_release()),
        119 => descriptor_view("pane_bottom"@, FormatScope::Pane, DecodedType::Signed, base_release()),
        120 => descriptor_view("pane_fg"@, FormatScope::Pane, DecodedType::Text, base_release()),
        121 => descriptor_view("pane_format"@, FormatScope::Pane, DecodedType::Text, base_release()),
        122 => descriptor_view("pane_last"@, FormatScope::Pane, DecodedType::Bool, base_release()),
        123 => descriptor_view("pane_left"@, FormatScope::Pane, DecodedType::Signed, base_release()),
        124 => descriptor_view("pane_marked"@, FormatScope::Pane, DecodedType::Bool, base_release()),
        125 => descriptor_view("pane_marked_set"@, FormatScope::Pane, DecodedType::Bool, base_release()),
        126 => descriptor_view("pane_mode"@, FormatScope::Pane, DecodedType::Text, base_release()),
        127 => descriptor_view("pane_path"@, FormatScope::Pane, DecodedType::Text, base_release()),
        128 => descriptor_view("pane_pipe"@, FormatScope::Pane, DecodedType::Bool, base_release()),
        129 => descriptor_view("pane_right"@, FormatScope::Pane, DecodedType::Signed, base_release()),
        130 => descriptor_view("pane_search_string"@, FormatScope::Pane, DecodedType::Text, base_release()),
        131 => descriptor_view("pane_tabs"@, FormatScope::Pane, DecodedType::Text, base_release()),
        132 => descriptor_view("pane_top"@, FormatScope::Pane, DecodedType::Signed, base_release()),
        133 => descriptor_view("pane_flags"@, FormatScope::Pane, DecodedType::Text, v37_release()),
        134 => descriptor_view("pane_floating_flag"@, FormatScope::Pane, DecodedType::Bool, v37_release()),
        135 => descriptor_view("pane_x"@, FormatScope::Pane, DecodedType::Signed, v37_release()),
        136 => descriptor_view("pane_y"@, FormatScope::Pane, DecodedType::Signed, v37_release()),
        137 => descriptor_view("pane_z"@, FormatScope::Pane, DecodedType::Signed, v37_release()),
        138 => descriptor_view("pane_zoomed_flag"@, FormatScope::Pane, DecodedType::Bool, v37_release()),
        139 => descriptor_view("pane_pb_progress"@, FormatScope::Pane, DecodedType::Unsigned, v37_release()),
        140 => descriptor_view("pane_pb_state"@, FormatScope::Pane, DecodedType::Text, v37_release()),
        141 => descriptor_view("pane_pipe_pid"@, FormatScope::Pane, DecodedType::Unsigned, v37_release()),
        142 => descriptor_view("bracket_paste_flag"@, FormatScope::Pane, DecodedType::Bool, v37_release()),
        143 => descriptor_view("synchronized_output_flag"@, FormatScope::Pane, DecodedType::Bool, v37_release()),
        144 => descriptor_view("client_name"@, FormatScope::Client, DecodedType::Text, base_release()),
        145 => descriptor_view("client_tty"@, FormatScope::Client, DecodedType::Text, base_release()),
        146 => descriptor_view("client_termname"@, FormatScope::Client, DecodedType::Text, base_release()),
        147 => descriptor_view("client_session"@, FormatScope::Client, DecodedType::Text, base_release()),
        148 => descriptor_view("client_last_session"@, FormatScope::Client, DecodedType::Text, base_release()),
        149 => descriptor_view("client_created"@, FormatScope::Client, DecodedType::Timestamp, base_release()),
        150 => descriptor_view("client_activity"@, FormatScope::Client, DecodedType::Timestamp, base_release()),
        151 => descriptor_view("client_width"@, FormatScope::Client, DecodedType::Unsigned, base_release()),
        152 => descriptor_view("client_height"@, FormatScope::Client, DecodedType::Unsigned, base_release()),
        153 => descriptor_view("client_pid"@, FormatScope::Client, DecodedType::Unsigned, base_release()),
        154 => descriptor_view("client_prefix"@, FormatScope::Client, DecodedType::Bool, base_release()),
        155 => descriptor_view("client_utf8"@, FormatScope::Client, DecodedType::Bool, base_release()),
        156 => descriptor_view("client_readonly"@, FormatScope::Client, DecodedType::Bool, base_release()),
        157 => descriptor_view("client_control_mode"@, FormatScope::Client, DecodedType::Bool, base_release()),
        158 => descriptor_view("client_flags"@, FormatScope::Client, DecodedType::Text, base_release()),
        159 => descriptor_view("client_cell_height"@, FormatScope::Client, DecodedType::Unsigned, base_release()),
        160 => descriptor_view("client_cell_width"@, FormatScope::Client, DecodedType::Unsigned, base_release()),
        161 => descriptor_view("client_discarded"@, FormatScope::Client, DecodedType::Unsigned, base_release()),
        162 => descriptor_view("client_key_table"@, FormatScope::Client, DecodedType::Text, base_release()),
        163 => descriptor_view("client_mode_format"@, FormatScope::Client, DecodedType::Text, base_release()),
        164 => descriptor_view("client_termfeatures"@, FormatScope::Client, DecodedType::Text, base_release()),
        165 => descriptor_view("client_termtype"@, FormatScope::Client, DecodedType::Text, base_release()),
        166 => descriptor_view("client_uid"@, FormatScope::Client, DecodedType::Unsigned, base_release()),
        167 => descriptor_view("client_user"@, FormatScope::Client, DecodedType::Text, base_release()),
        168 => descriptor_view("client_written"@, FormatScope::Client, DecodedType::Unsigned, base_release()),
        169 => descriptor_view("buffer_name"@, FormatScope::Buffer, DecodedType::Text, base_release()),
        170 => descriptor_view("buffer_size"@, FormatScope::Buffer, DecodedType::Unsigned, base_release()),
        171 => descriptor_view("buffer_sample"@, FormatScope::Buffer, DecodedType::Text, base_release()),
        172 => descriptor_view("copy_cursor_line"@, FormatScope::Event, DecodedType::Unsigned, base_release()),
        173 => descriptor_view("copy_cursor_word"@, FormatScope::Event, DecodedType::Text, base_release()),
        174 => descriptor_view("copy_cursor_x"@, FormatScope::Event, DecodedType::Unsigned, base_release()),
        175 => descriptor_view("copy_cursor_y"@, FormatScope::Event, DecodedType::Unsigned, base_release()),
        176 => descriptor_view("scroll_position"@, FormatScope::Event, DecodedType::Signed, base_release()),
        177 => descriptor_view("selection_end_x"@, FormatScope::Event, DecodedType::Signed, base_release()),
        178 => descriptor_view("selection_end_y"@, FormatScope::Event, DecodedType::Signed, base_release()),
        179 => descriptor_view("selection_start_x"@, FormatScope::Event, DecodedType::Signed, base_release()),
        180 => descriptor_view("selection_start_y"@, FormatScope::Event, DecodedType::Signed, base_release()),
        181 => descriptor_view("command_list_alias"@, FormatScope::Context, DecodedType::Text, base_release()),
        182 => descriptor_view("command_list_name"@, FormatScope::Context, DecodedType::Text, base_release()),
        183 => descriptor_view("command_list_usage"@, FormatScope::Context, DecodedType::Text, base_release()),
        184 => descriptor_view("current_file"@, FormatScope::Context, DecodedType::Text, base_release()),
        185 => descriptor_view("search_match"@, FormatScope::Context, DecodedType::Text, base_release()),
        _ => descriptor_view(Seq::empty(), FormatScope::Context, DecodedType::Text, base_release()),
    }
}

/// The descriptor at a catalog position.
#[verifier::rlimit(50)]
pub fn catalog_entry(i: usize) -> (r: FormatDescriptor)
    requires
        i < CATALOG_LEN,
    ensures
        r@ == catalog_view(i),
{
    reveal(catalog_view);
    let base = ReleaseVersion::minimum();
    let v33 = ReleaseVersion::new(3, 3, None);
    let v37 = ReleaseVersion::new(3, 7, None);
    match i {
        0 => FormatDescriptor { token: "pid", scope: FormatScope::Universal, decoded: DecodedType::Unsigned, minimum: base },
        1 => FormatDescriptor { token: "config_files", scope: FormatScope::Universal, decoded: DecodedType::Text, minimum: base },
        2 => FormatDescriptor { token: "host", scope: FormatScope::Universal, decoded: DecodedType::Text, minimum: base },
        3 => FormatDescriptor { token: "host_short", scope: FormatScope::Universal, decoded: DecodedType::Text, minimum: base },
        4 => FormatDescriptor { token: "line", scope: FormatScope::Universal, decoded: DecodedType::Unsigned, minimum: base },
        5 => FormatDescriptor { token: "next_session_id", scope: FormatScope::Universal, decoded: DecodedType::Unsigned, minimum: base },
        6 => FormatDescriptor { token: "socket_path", scope: FormatScope::Universal, decoded: DecodedType::Text, minimum: base },
        7 => FormatDescriptor { token: "start_time", scope: FormatScope::Universal, decoded: DecodedType::Timestamp, minimum: base },
        8 => FormatDescriptor { token: "uid", scope: FormatScope::Universal, decoded: DecodedType::Unsigned, minimum: base },
        9 => FormatDescriptor { token: "user", scope: FormatScope::Universal, decoded: DecodedType::Text, minimum: base },
        10 => FormatDescriptor { token: "version", scope: FormatScope::Universal, decoded: DecodedType::Text, minimum: base },
        11 => FormatDescriptor { token: "session_id", scope: FormatScope::Session, decoded: DecodedType::Id, minimum: base },
        12 => FormatDescriptor { token: "session_name", scope: FormatScope::Session, decoded: DecodedType::Text, minimum: base },
        13 => FormatDescriptor { token: "session_windows", scope: FormatScope::Session, decoded: DecodedType::Unsigned, minimum: base },
        14 => FormatDescriptor { token: "session_width", scope: FormatScope::Session, decoded: DecodedType::Unsigned, minimum: base },
        15 => FormatDescriptor { token: "session_height", scope: FormatScope::Session, decoded: DecodedType::Unsigned, minimum: base },
        16 => FormatDescriptor { token: "session_created", scope: FormatScope::Session, decoded: DecodedType::Timestamp, minimum: base },
        17 => FormatDescriptor { token: "session_created_string", scope: FormatScope::Session, decoded: DecodedType::Text, minimum: base },
        18 => FormatDescriptor { token: "session_attached", scope: FormatScope::Session, decoded: DecodedType::Unsigned, minimum: base },
        19 => FormatDescriptor { token: "session_activity", scope: FormatScope::Session, decoded: DecodedType::Timestamp, minimum: base },
        20 => FormatDescriptor { token: "session_alerts", scope: FormatScope::Session, decoded: DecodedType::Text, minimum: base },
        21 => FormatDescriptor { token: "session_attached_list", scope: FormatScope::Session, decoded: DecodedType::Text, minimum: base },
        22 => FormatDescriptor { token: "session_format", scope: FormatScope::Session, decoded: DecodedType::Text, minimum: base },
        23 => FormatDescriptor { token: "session_group", scope: FormatScope::Session, decoded: DecodedType::Text, minimum: base },
        24 => FormatDescriptor { token: "session_group_attached", scope: FormatScope::Session, decoded: DecodedType::Unsigned, minimum: base },
        25 => FormatDescriptor { token: "session_group_attached_list", scope: FormatScope::Session, decoded: DecodedType::Text, minimum: base },
        26 => FormatDescriptor { token: "session_group_list", scope: FormatScope::Session, decoded: DecodedType::Text, minimum: base },
        27 => FormatDescriptor { token: "session_group_many_attached", scope: FormatScope::Session, decoded: DecodedType::Bool, minimum: base },
        28 => FormatDescriptor { token: "session_group_size", scope: FormatScope::Session, decoded: DecodedType::Unsigned, minimum: base },
        29 => FormatDescriptor { token: "session_grouped", scope: FormatScope::Session, decoded: DecodedType::Bool, minimum: base },
        30 => FormatDescriptor { token: "session_last_attached", scope: FormatScope::Session, decoded: DecodedType::Timestamp, minimum: base },
        31 => FormatDescriptor { token: "session_many_attached", scope: FormatScope::Session, decoded: DecodedType::Bool, minimum: base },
        32 => FormatDescriptor { token: "session_marked", scope: FormatScope::Session, decoded: DecodedType::Bool, minimum: base },
        33 => FormatDescriptor { token: "session_path", scope: FormatScope::Session, decoded: DecodedType::Text, minimum: base },
        34 => FormatDescriptor { token: "session_stack", scope: FormatScope::Session, decoded: DecodedType::Text, minimum: base },
        35 => FormatDescriptor { token: "active_window_index", scope: FormatScope::Session, decoded: DecodedType::Unsigned, minimum: base },
        36 => FormatDescriptor { token: "last_window_index", scope: FormatScope::Session, decoded: DecodedType::Unsigned, minimum: base },
        37 => FormatDescriptor { token: "window_id", scope: FormatScope::Window, decoded: DecodedType::Id, minimum: base },
        38 => FormatDescriptor { token: "window_index", scope: FormatScope::Window, decoded: DecodedType::Unsigned, minimum: base },
        39 => FormatDescriptor { token: "window_name", scope: FormatScope::Window, decoded: DecodedType::Text, minimum: base },
        40 => FormatDescriptor { token: "window_width", scope: FormatScope::Window, decoded: DecodedType::Unsigned, minimum: base },
        41 => FormatDescriptor { token: "window_height", scope: FormatScope::Window, decoded: DecodedType::Unsigned, minimum: base },
        42 => FormatDescriptor { token: "window_layout", scope: FormatScope::Window, decoded: DecodedType::Text, minimum: base },
        43 => FormatDescriptor { token: "window_visible_layout", scope: FormatScope::Window, decoded: DecodedType::Text, minimum: base },
        44 => FormatDescriptor { token: "window_panes", scope: FormatScope::Window, decoded: DecodedType::Unsigned, minimum: base },
        45 => FormatDescriptor { token: "window_flags", scope: FormatScope::Window, decoded: DecodedType::Text, minimum: base },
        46 => FormatDescriptor { token: "window_active", scope: FormatScope::Window, decoded: DecodedType::Bool, minimum: base },
        47 => FormatDescriptor { token: "window_bell_flag", scope: FormatScope::Window, decoded: DecodedType::Bool, minimum: base },
        48 => FormatDescriptor { token: "window_activity_flag", scope: FormatScope::Window, decoded: DecodedType::Bool, minimum: base },
        49 => FormatDescriptor { token: "window_silence_flag", scope: FormatScope::Window, decoded: DecodedType::Bool, minimum: base },
        50 => FormatDescriptor { token: "window_zoomed_flag", scope: FormatScope::Window, decoded: DecodedType::Bool, minimum: base },
        51 => FormatDescriptor { token: "window_active_clients", scope: FormatScope::Window, decoded: DecodedType::Unsigned, minimum: base },
        52 => FormatDescriptor { token: "window_active_clients_list", scope: FormatScope::Window, decoded: DecodedType::Text, minimum: base },
        53 => FormatDescriptor { token: "window_active_sessions", scope: FormatScope::Window, decoded: DecodedType::Unsigned, minimum: base },
        54 => FormatDescriptor { token: "window_active_sessions_list", scope: FormatScope::Window, decoded: DecodedType::Text, minimum: base },
        55 => FormatDescriptor { token: "window_activity", scope: FormatScope::Window, decoded: DecodedType::Timestamp, minimum: base },
        56 => FormatDescriptor { token: "window_bigger", scope: FormatScope::Window, decoded: DecodedType::Bool, minimum: base },
        57 => FormatDescriptor { token: "window_cell_height", scope: FormatScope::Window, decoded: DecodedType::Unsigned, minimum: base },
        58 => FormatDescriptor { token: "window_cell_width", scope: FormatScope::Window, decoded: DecodedType::Unsigned, minimum: base },
        59 => FormatDescriptor { token: "window_end_flag", scope: FormatScope::Window, decoded: DecodedType::Bool, minimum: base },
        60 => FormatDescriptor { token: "window_format", scope: FormatScope::Window, decoded: DecodedType::Text, minimum: base },
        61 => FormatDescriptor { token: "window_last_flag", scope: FormatScope::Window, decoded: DecodedType::Bool, minimum: base },
        62 => FormatDescriptor { token: "window_linked", scope: FormatScope::Window, decoded: DecodedType::Bool, minimum: base },
        63 => FormatDescriptor { token: "window_linked_sessions", scope: FormatScope::Window, decoded: DecodedType::Unsigned, minimum: base },
        64 => FormatDescriptor { token: "window_linked_sessions_list", scope: FormatScope::Window, decoded: DecodedType::Text, minimum: base },
        65 => FormatDescriptor { token: "window_marked_flag", scope: FormatScope::Window, decoded: DecodedType::Bool, minimum: base },
        66 => FormatDescriptor { token: "window_offset_x", scope: FormatScope::Window, decoded: DecodedType::Signed, minimum: base },
        67 => FormatDescriptor { token: "window_offset_y", scope: FormatScope::Window, decoded: DecodedType::Signed, minimum: base },
        68 => FormatDescriptor { token: "window_raw_flags", scope: FormatScope::Window, decoded: DecodedType::Text, minimum: base },
        69 => FormatDescriptor { token: "window_stack_index", scope: FormatScope::Window, decoded: DecodedType::Unsigned, minimum: base },
        70 => FormatDescriptor { token: "window_start_flag", scope: FormatScope::Window, decoded: DecodedType::Bool, minimum: base },
        71 => FormatDescriptor { token: "pane_id", scope: FormatScope::Pane, decoded: DecodedType::Id, minimum: base },
        72 => FormatDescriptor { token: "pane_index", scope: FormatScope::Pane, decoded: DecodedType::Unsigned, minimum: base },
        73 => FormatDescriptor { token: "pane_width", scope: FormatScope::Pane, decoded: DecodedType::Unsigned, minimum: base },
        74 => FormatDescriptor { token: "pane_height", scope: FormatScope::Pane, decoded: DecodedType::Unsigned, minimum: base },
        75 => FormatDescriptor { token: "pane_title", scope: FormatScope::Pane, decoded: DecodedType::Text, minimum: base },
        76 => FormatDescriptor { token: "pane_active", scope: FormatScope::Pane, decoded: DecodedType::Bool, minimum: base },
        77 => FormatDescriptor { token: "pane_dead", scope: FormatScope::Pane, decoded: DecodedType::Bool, minimum: base },
        78 => FormatDescriptor { token: "pane_dead_status", scope: FormatScope::Pane, decoded: DecodedType::Signed, minimum: base },
        79 => FormatDescriptor { token: "pane_dead_signal", scope: FormatScope::Pane, decoded: DecodedType::Signed, minimum: v33 },
        80 => FormatDescriptor { token: "pane_dead_time", scope: FormatScope::Pane, decoded: DecodedType::Timestamp, minimum: v33 },
        81 => FormatDescriptor { token: "pane_in_mode", scope: FormatScope::Pane, decoded: DecodedType::Bool, minimum: base },
        82 => FormatDescriptor { token: "pane_synchronized", scope: FormatScope::Pane, decoded: DecodedType::Bool, minimum: base },
        83 => FormatDescriptor { token: "pane_tty", scope: FormatScope::Pane, decoded: DecodedType::Text, minimum: base },
        84 => FormatDescriptor { token: "pane_pid", scope: FormatScope::Pane, decoded: DecodedType::Unsigned, minimum: base },
        85 => FormatDescriptor { token: "pane_start_command", scope: FormatScope::Pane, decoded: DecodedType::Text, minimum: base },
        86 => FormatDescriptor { token: "pane_start_path", scope: FormatScope::Pane, decoded: DecodedType::Text, minimum: base },
        87 => FormatDescriptor { token: "pane_current_path", scope: FormatScope::Pane, decoded: DecodedType::Text, minimum: base },
        88 => FormatDescriptor { token: "pane_current_command", scope: FormatScope::Pane, decoded: DecodedType::Text, minimum: base },
        89 => FormatDescriptor { token: "pane_input_off", scope: FormatScope::Pane, decoded: DecodedType::Bool, minimum: base },
        90 => FormatDescriptor { token: "pane_unseen_changes", scope: FormatScope::Pane, decoded: DecodedType::Bool, minimum: base },
        91 => FormatDescriptor { token: "pane_at_left", scope: FormatScope::Pane, decoded: DecodedType::Bool, minimum: base },
        92 => FormatDescriptor { token: "pane_at_right", scope: FormatScope::Pane, decoded: DecodedType::Bool, minimum: base },
        93 => FormatDescriptor { token: "pane_at_top", scope: FormatScope::Pane, decoded: DecodedType::Bool, minimum: base },
        94 => FormatDescriptor { token: "pane_at_bottom", scope: FormatScope::Pane, decoded: DecodedType::Bool, minimum: base },
        95 => FormatDescriptor { token: "history_size", scope: FormatScope::Pane, decoded: DecodedType::Unsigned, minimum: base },
        96 => FormatDescriptor { token: "history_limit", scope: FormatScope::Pane, decoded: DecodedType::Unsigned, minimum: base },
        97 => FormatDescriptor { token: "history_bytes", scope: FormatScope::Pane, decoded: DecodedType::Unsigned, minimum: base },
        98 => FormatDescriptor { token: "alternate_saved_x", scope: FormatScope::Pane, decoded: DecodedType::Unsigned, minimum: base },
        99 => FormatDescriptor { token: "alternate_saved_y", scope: FormatScope::Pane, decoded: DecodedType::Unsigned, minimum: base },
        100 => FormatDescriptor { token: "cursor_x", scope: FormatScope::Pane, decoded: DecodedType::Unsigned, minimum: base },
        101 => FormatDescriptor { token: "cursor_y", scope: FormatScope::Pane, decoded: DecodedType::Unsigned, minimum: base },
        102 => FormatDescriptor { token: "scroll_region_upper", scope: FormatScope::Pane, decoded: DecodedType::Unsigned, minimum: base },
        103 => FormatDescriptor { token: "scroll_region_lower", scope: FormatScope::Pane, decoded: DecodedType::Unsigned, minimum: base },
        104 => FormatDescriptor { token: "alternate_on", scope: FormatScope::Pane, decoded: DecodedType::Bool, minimum: base },
        105 => FormatDescriptor { token: "cursor_flag", scope: FormatScope::Pane, decoded: DecodedType::Bool, minimum: base },
        106 => FormatDescriptor { token: "insert_flag", scope: FormatScope::Pane, decoded: DecodedType::Bool, minimum: base },
        107 => FormatDescriptor { token: "keypad_cursor_flag", scope: FormatScope::Pane, decoded: DecodedType::Bool, minimum: base },
        108 => FormatDescriptor { token: "keypad_flag", scope: FormatScope::Pane, decoded: DecodedType::Bool, minimum: base },
        109 => FormatDescriptor { token: "wrap_flag", scope: FormatScope::Pane, decoded: DecodedType::Bool, minimum: base },
        110 => FormatDescriptor { token: "mouse_standard_flag", scope: FormatScope::Pane, decoded: DecodedType::Bool, minimum: base },
        111 => FormatDescriptor { token: "mouse_button_flag", scope: FormatScope::Pane, decoded: DecodedType::Bool, minimum: base },
        112 => FormatDescriptor { token: "mouse_any_flag", scope: FormatScope::Pane, decoded: DecodedType::Bool, minimum: base },
        113 => FormatDescriptor { token: "mouse_utf8_flag", scope: FormatScope::Pane, decoded: DecodedType::Bool, minimum: base },
        114 => FormatDescriptor { token: "cursor_character", scope: FormatScope::Pane, decoded: DecodedType::Text, minimum: base },
        115 => FormatDescriptor { token: "mouse_all_flag", scope: FormatScope::Pane, decoded: DecodedType::Bool, minimum: base },
        116 => FormatDescriptor { token: "mouse_sgr_flag", scope: FormatScope::Pane, decoded: DecodedType::Bool, minimum: base },
        117 => FormatDescriptor { token: "origin_flag", scope: FormatScope::Pane, decoded: DecodedType::Bool, minimum: base },
        118 => FormatDescriptor { token: "pane_bg", scope: FormatScope::Pane, decoded: DecodedType::Text, minimum: base },
        119 => FormatDescriptor { token: "pane_bottom", scope: FormatScope::Pane, decoded: DecodedType::Signed, minimum: base },
        120 => FormatDescriptor { token: "pane_fg", scope: FormatScope::Pane, decoded: DecodedType::Text, minimum: base },
        121 => FormatDescriptor { token: "pane_format", scope: FormatScope::Pane, decoded: DecodedType::Text, minimum: base },
        122 => FormatDescriptor { token: "pane_last", scope: FormatScope::Pane, decoded: DecodedType::Bool, minimum: base },
        123 => FormatDescriptor { token: "pane_left", scope: FormatScope::Pane, decoded: DecodedType::Signed, minimum: base },
        124 => FormatDescriptor { token: "pane_marked", scope: FormatScope::Pane, decoded: DecodedType::Bool, minimum: base },
        125 => FormatDescriptor { token: "pane_marked_set", scope: FormatScope::Pane, decoded: DecodedType::Bool, minimum: base },
        126 => FormatDescriptor { token: "pane_mode", scope: FormatScope::Pane, decoded: DecodedType::Text, minimum: base },
        127 => FormatDescriptor { token: "pane_path", scope: FormatScope::Pane, decoded: DecodedType::Text, minimum: base },
        128 => FormatDescriptor { token: "pane_pipe", scope: FormatScope::Pane, decoded: DecodedType::Bool, minimum: base },
        129 => FormatDescriptor { token: "pane_right", scope: FormatScope::Pane, decoded: DecodedType::Signed, minimum: base },
        130 => FormatDescriptor { token: "pane_search_string", scope: FormatScope::Pane, decoded: DecodedType::Text, minimum: base },
        131 => FormatDescriptor { token: "pane_tabs", scope: FormatScope::Pane, decoded: DecodedType::Text, minimum: base },
        132 => FormatDescriptor { token: "pane_top", scope: FormatScope::Pane, decoded: DecodedType::Signed, minimum: base },
        133 => FormatDescriptor { token: "pane_flags", scope: FormatScope::Pane, decoded: DecodedType::Text, minimum: v37 },
        134 => FormatDescriptor { token: "pane_floating_flag", scope: FormatScope::Pane, decoded: DecodedType::Bool, minimum: v37 },
        135 => FormatDescriptor { token: "pane_x", scope: FormatScope::Pane, decoded: DecodedType::Signed, minimum: v37 },
        136 => FormatDescriptor { token: "pane_y", scope: FormatScope::Pane, decoded: DecodedType::Signed, minimum: v37 },
        137 => FormatDescriptor { token: "pane_z", scope: FormatScope::Pane, decoded: DecodedType::Signed, minimum: v37 },
        138 => FormatDescriptor { token: "pane_zoomed_flag", scope: FormatScope::Pane, decoded: DecodedType::Bool, minimum: v37 },
        139 => FormatDescriptor { token: "pane_pb_progress", scope: FormatScope::Pane, decoded: DecodedType::Unsigned, minimum: v37 },
        140 => FormatDescriptor { token: "pane_pb_state", scope: FormatScope::Pane, decoded: DecodedType::Text, minimum: v37 },
        141 => FormatDescriptor { token: "pane_pipe_pid", scope: FormatScope::Pane, decoded: DecodedType::Unsigned, minimum: v37 },
        142 => FormatDescriptor { token: "bracket_paste_flag", scope: FormatScope::Pane, decoded: DecodedType::Bool, minimum: v37 },
        143 => FormatDescriptor { token: "synchronized_output_flag", scope: FormatScope::Pane, decoded: DecodedType::Bool, minimum: v37 },
        144 => FormatDescriptor { token: "client_name", scope: FormatScope::Client, decoded: DecodedType::Text, minimum: base },
        145 => FormatDescriptor { token: "client_tty", scope: FormatScope::Client, decoded: DecodedType::Text, minimum: base },
        146 => FormatDescriptor { token: "client_termname", scope: FormatScope::Client, decoded: DecodedType::Text, minimum: base },
        147 => FormatDescriptor { token: "client_session", scope: FormatScope::Client, decoded: DecodedType::Text, minimum: base },
        148 => FormatDescriptor { token: "client_last_session", scope: FormatScope::Client, decoded: DecodedType::Text, minimum: base },
        149 => FormatDescriptor { token: "client_created", scope: FormatScope::Client, decoded: DecodedType::Timestamp, minimum: base },
        150 => FormatDescriptor { token: "client_activity", scope: FormatScope::Client, decoded: DecodedType::Timestamp, minimum: base },
        151 => FormatDescriptor { token: "client_width", scope: FormatScope::Client, decoded: DecodedType::Unsigned, minimum: base },
        152 => FormatDescriptor { token: "client_height", scope: FormatScope::Client, decoded: DecodedType::Unsigned, minimum: base },
        153 => FormatDescriptor { token: "client_pid", scope: FormatScope::Client, decoded: DecodedType::Unsigned, minimum: base },
        154 => FormatDescriptor { token: "client_prefix", scope: FormatScope::Client, decoded: DecodedType::Bool, minimum: base },
        155 => FormatDescriptor { token: "client_utf8", scope: FormatScope::Client, decoded: DecodedType::Bool, minimum: base },
        156 => FormatDescriptor { token: "client_readonly", scope: FormatScope::Client, decoded: DecodedType::Bool, minimum: base },
        157 => FormatDescriptor { token: "client_control_mode", scope: FormatScope::Client, decoded: DecodedType::Bool, minimum: base },
        158 => FormatDescriptor { token: "client_flags", scope: FormatScope::Client, decoded: DecodedType::Text, minimum: base },
        159 => FormatDescriptor { token: "client_cell_height", scope: FormatScope::Client, decoded: DecodedType::Unsigned, minimum: base },
        160 => FormatDescriptor { token: "client_cell_width", scope: FormatScope::Client, decoded: DecodedType::Unsigned, minimum: base },
        161 => FormatDescriptor { token: "client_discarded", scope: FormatScope::Client, decoded: DecodedType::Unsigned, minimum: base },
        162 => FormatDescriptor { token: "client_key_table", scope: FormatScope::Client, decoded: DecodedType::Text, minimum: base },
        163 => FormatDescriptor { token: "client_mode_format", scope: FormatScope::Client, decoded: DecodedType::Text, minimum: base },
        164 => FormatDescriptor { token: "client_termfeatures", scope: FormatScope::Client, decoded: DecodedType::Text, minimum: base },
        165 => FormatDescriptor { token: "client_termtype", scope: FormatScope::Client, decoded: DecodedType::Text, minimum: base },
        166 => FormatDescriptor { token: "client_uid", scope: FormatScope::Client, decoded: DecodedType::Unsigned, minimum: base },
        167 => FormatDescriptor { token: "client_user", scope: FormatScope::Client, decoded: DecodedType::Text, minimum: base },
        168 => FormatDescriptor { token: "client_written", scope: FormatScope::Client, decoded: DecodedType::Unsigned, minimum: base },
        169 => FormatDescriptor { token: "buffer_name", scope: FormatScope::Buffer, decoded: DecodedType::Text, minimum: base },
        170 => FormatDescriptor { token: "buffer_size", scope: FormatScope::Buffer, decoded: DecodedType::Unsigned, minimum: base },
        171 => FormatDescriptor { token: "buffer_sample", scope: FormatScope::Buffer, decoded: DecodedType::Text, minimum: base },
        172 => FormatDescriptor { token: "copy_cursor_line", scope: FormatScope::Event, decoded: DecodedType::Unsigned, minimum: base },
        173 => FormatDescriptor { token: "copy_cursor_word", scope: FormatScope::Event, decoded: DecodedType::Text, minimum: base },
        174 => FormatDescriptor { token: "copy_cursor_x", scope: FormatScope::Event, decoded: DecodedType::Unsigned, minimum: base },
        175 => FormatDescriptor { token: "copy_cursor_y", scope: FormatScope::Event, decoded: DecodedType::Unsigned, minimum: base },
        176 => FormatDescriptor { token: "scroll_position", scope: FormatScope::Event, decoded: DecodedType::Signed, minimum: base },
        177 => FormatDescriptor { token: "selection_end_x", scope: FormatScope::Event, decoded: DecodedType::Signed, minimum: base },
        178 => FormatDescriptor { token: "selection_end_y", scope: FormatScope::Event, decoded: DecodedType::Signed, minimum: base },
        179 => FormatDescriptor { token: "selection_start_x", scope: FormatScope::Event, decoded: DecodedType::Signed, minimum: base },
        180 => FormatDescriptor { token: "selection_start_y", scope: FormatScope::Event, decoded: DecodedType::Signed, minimum: base },
        181 => FormatDescriptor { token: "command_list_alias", scope: FormatScope::Context, decoded: DecodedType::Text, minimum: base },
        182 => FormatDescriptor { token: "command_list_name", scope: FormatScope::Context, decoded: DecodedType::Text, minimum: base },
        183 => FormatDescriptor { token: "command_list_usage", scope: FormatScope::Context, decoded: DecodedType::Text, minimum: base },
        184 => FormatDescriptor { token: "current_file", scope: FormatScope::Context, decoded: DecodedType::Text, minimum: base },
        _ => FormatDescriptor { token: "search_match", scope: FormatScope::Context, decoded: DecodedType::Text, minimum: base },
    }
}

/// The whole catalog, in order.
pub open spec fn catalog() -> Seq<FormatDescriptorView> {
    Seq::new(CATALOG_LEN as nat, |i: int| catalog_view(i as usize))
}

/// The views of a list of descriptors.
pub open spec fn descriptor_views(s: Seq<FormatDescriptor>) -> Seq<FormatDescriptorView> {
    s.map_values(|d: FormatDescriptor| d@)
}

/// Whether `i` is the first catalog position whose token is `token`.
pub open spec fn first_with_token(token: Seq<char>, i: int) -> bool {
    &&& 0 <= i < CATALOG_LEN
    &&& catalog_view(i as usize).token == token
    &&& forall|j: int| 0 <= j < i ==> #[trigger] catalog_view(j as usize).token != token
}

impl FormatDescriptor {
    /// Returns the tmux token without `#{}` delimiters.
    pub fn token(self) -> (r: &'static str)
        ensures
            r@ == self@.token,
    {
        self.token
    }

    /// Returns the context required by this token.
    pub fn scope(self) -> (r: FormatScope)
        ensures
            r == self@.scope,
    {
        self.scope
    }

    /// Returns the intended decoded representation.
    pub fn decoded_type(self) -> (r: DecodedType)
        ensures
            r == self@.decoded,
    {
        self.decoded
    }

    /// Returns the oldest tmux release that supplies the token.
    pub fn minimum_version(self) -> (r: ReleaseVersion)
        ensures
            r@ == self@.minimum,
    {
        self.minimum
    }
}

/// Returns the catalog used for queries and snapshot accessors.
pub fn format_catalog() -> (r: Vec<FormatDescriptor>)
    ensures
        descriptor_views(r@) == catalog(),
{
    let mut out: Vec<FormatDescriptor> = Vec::new();
    let mut i: usize = 0;
    while i < CATALOG_LEN
        invariant
            i <= CATALOG_LEN,
            descriptor_views(out@) == catalog().take(i as int),
        decreases CATALOG_LEN - i,
    {
        let d = catalog_entry(i);
        proof {
            lemma_map_push(out@, d, |d: FormatDescriptor| d@);
            lemma_take_push(catalog(), i as int);
        }
        out.push(d);
        i = i + 1;
    }
    assert(catalog().take(CATALOG_LEN as int) =~= catalog());
    out
}

/// Looks up a known descriptor by exact token name.
pub fn format_descriptor(token: &str) -> (r: Option<FormatDescriptor>)
    ensures
        match r {
            Some(d) => exists|i: int| first_with_token(token@, i) && catalog_view(i as usize) == d@,
            None => forall|i: int| 0 <= i < CATALOG_LEN ==> #[trigger] catalog_view(i as usize).token != token@,
        },
{
    let wanted = chars_of(token);
    let mut i: usize = 0;
    while i < CATALOG_LEN
        invariant
            i <= CATALOG_LEN,
            wanted@ == token@,
            forall|j: int| 0 <= j < i ==> #[trigger] catalog_view(j as usize).token != token@,
        decreases CATALOG_LEN - i,
    {
        let d = catalog_entry(i);
        let t = chars_of(d.token);
        if chars_equal(t.as_slice(), wanted.as_slice()) {
            assert(first_with_token(token@, i as int));
            return Some(d);
        }
        i = i + 1;
    }
    None
}

/// The largest magnitude of a negative `i64`.
pub open spec fn i64_neg_limit() -> nat {
    9223372036854775808
}

/// The flag that `0` or `1` spells, if either.
pub open spec fn flag_bytes(v: Seq<u8>) -> Option<bool> {
    if v == seq![48u8] {
        Some(false)
    } else if v == seq![49u8] {
        Some(true)
    } else {
        None
    }
}

/// A decoding error.
pub open spec fn decode_error(context: Seq<char>, message: Seq<char>) -> ErrorView {
    ErrorView::Decode { context, message }
}

/// A decoding error in `context` whose message begins with `prefix`; what
/// follows the prefix is the standard library's UTF-8 error description.
pub open spec fn decode_error_prefixed(e: ErrorView, context: Seq<char>, prefix: Seq<char>) -> bool {
    e matches ErrorView::Decode { context: c, message: m } && c == context && prefix.len() <= m.len()
        && m.take(prefix.len() as int) == prefix
}

/// A decoded number of the given representation.
pub open spec fn number_value(kind: DecodedType, n: int) -> FormatValueView {
    match kind {
        DecodedType::Signed => FormatValueView::Signed(n as i64),
        DecodedType::Unsigned => FormatValueView::Unsigned(n as u64),
        _ => FormatValueView::Timestamp(n as u64),
    }
}

/// An unsigned parse outcome as an integer outcome.
pub open spec fn unsigned_as_int(p: Result<nat, IntErrorKind>) -> Result<int, IntErrorKind> {
    match p {
        Ok(n) => Ok(n as int),
        Err(k) => Err(k),
    }
}

/// The outcome of decoding non-empty text as a number: UTF-8 is required,
/// then the parse decides.
pub open spec fn number_decodes(
    token: Seq<char>,
    kind: DecodedType,
    value: Seq<u8>,
    parsed: Result<int, IntErrorKind>,
    r: Result<Option<FormatValueView>, ErrorView>,
) -> bool {
    if !valid_utf8(value) {
        r matches Err(e) && decode_error_prefixed(e, "numeric format"@, token + ": "@)
    } else {
        match parsed {
            Ok(n) => r == Ok::<Option<FormatValueView>, ErrorView>(Some(number_value(kind, n))),
            Err(k) => r == Err::<Option<FormatValueView>, ErrorView>(decode_error("numeric format"@, token + ": "@ + int_error_text(k))),
        }
    }
}

/// What decoding `value` with descriptor `d` gives, as views.
pub open spec fn decodes(d: FormatDescriptorView, value: Seq<u8>, r: Result<Option<FormatValueView>, ErrorView>) -> bool {
    if value.len() == 0 {
        r == Ok::<Option<FormatValueView>, ErrorView>(None)
    } else {
        match d.decoded {
            DecodedType::Text => r == Ok::<Option<FormatValueView>, ErrorView>(Some(FormatValueView::Text(value))),
            DecodedType::Bool => match flag_bytes(value) {
                Some(b) => r == Ok::<Option<FormatValueView>, ErrorView>(Some(FormatValueView::Bool(b))),
                None => r == Err::<Option<FormatValueView>, ErrorView>(decode_error("format boolean"@, d.token + " was not 0 or 1"@)),
            },
            DecodedType::Signed => number_decodes(d.token, d.decoded, value,
                parse_signed(decode_utf8(value), i64_neg_limit(), i64::MAX as nat), r),
            DecodedType::Unsigned | DecodedType::Timestamp => number_decodes(d.token, d.decoded, value,
                unsigned_as_int(parse_unsigned(decode_utf8(value), u64::MAX as nat)), r),
            DecodedType::Id => if valid_utf8(value) {
                r == Ok::<Option<FormatValueView>, ErrorView>(Some(FormatValueView::Id(decode_utf8(value))))
            } else {
                r matches Err(e) && decode_error_prefixed(e, "format identity"@, d.token + ": "@)
            },
        }
    }
}

/// The views of a decoding result.
pub open spec fn decoded_view<'a>(r: Result<Option<FormatValue<'a>>, Error>) -> Result<Option<FormatValueView>, ErrorView> {
    match r {
        Ok(Some(v)) => Ok(Some(v@)),
        Ok(None) => Ok(None),
        Err(e) => Err(e@),
    }
}

/// A decoding error whose message is `token`, `: ` and `tail`.
fn token_error(context: &'static str, token: &'static str, tail: &str) -> (e: Error)
    ensures
        e@ == decode_error(context@, token@ + ": "@ + tail@),
        decode_error_prefixed(e@, context@, token@ + ": "@),
{
    let mut message = owned(token);
    append_str(&mut message, ": ");
    append_str(&mut message, tail);
    assert((token@ + ": "@ + tail@).take((token@ + ": "@).len() as int) =~= token@ + ": "@);
    Error::Decode { context, message }
}

impl FormatDescriptor {
    /// Decodes a non-empty value using this descriptor's declared type.
    pub fn decode<'a>(self, value: &'a TmuxText) -> (r: Result<Option<FormatValue<'a>>, Error>)
        ensures
            decodes(self@, value@, decoded_view(r)),
    {
        if value.is_empty() {
            return Ok(None);
        }
        match self.decoded {
            DecodedType::Text => Ok(Some(FormatValue::Text(value))),
            DecodedType::Bool => {
                let b = value.as_bytes();
                if b.len() == 1 && b[0] == 48u8 {
                    assert(value@ =~= seq![48u8]);
                    Ok(Some(FormatValue::Bool(false)))
                } else if b.len() == 1 && b[0] == 49u8 {
                    assert(value@ =~= seq![49u8]);
                    Ok(Some(FormatValue::Bool(true)))
                } else {
                    let mut message = owned(self.token);
                    append_str(&mut message, " was not 0 or 1");
                    Err(Error::Decode { context: "format boolean", message })
                }
            },
            DecodedType::Signed => match value.to_str() {
                Err(e) => {
                    let tail = utf8_error_text(&e);
                    Err(token_error("numeric format", self.token, tail.as_str()))
                },
                Ok(s) => {
                    let chars = chars_of(s);
                    match parse_signed_chars(chars.as_slice(), 9223372036854775808u64, 9223372036854775807u64) {
                        Ok(n) => Ok(Some(FormatValue::Signed(n as i64))),
                        Err(k) => Err(token_error("numeric format", self.token, crate::numeric::int_error_message(k))),
                    }
                },
            },
            DecodedType::Unsigned | DecodedType::Timestamp => match value.to_str() {
                Err(e) => {
                    let tail = utf8_error_text(&e);
                    Err(token_error("numeric format", self.token, tail.as_str()))
                },
                Ok(s) => {
                    let chars = chars_of(s);
                    match parse_unsigned_chars(chars.as_slice(), u64::MAX) {
                        Ok(n) => if self.decoded == DecodedType::Unsigned {
                            Ok(Some(FormatValue::Unsigned(n)))
                        } else {
                            Ok(Some(FormatValue::Timestamp(n)))
                        },
                        Err(k) => Err(token_error("numeric format", self.token, crate::numeric::int_error_message(k))),
                    }
                },
            },
            DecodedType::Id => match value.to_str() {
                Err(e) => {
                    let tail = utf8_error_text(&e);
                    Err(token_error("format identity", self.token, tail.as_str()))
                },
                Ok(s) => Ok(Some(FormatValue::Id(s))),
            },
        }
    }
}

/// Which catalog descriptors a listing selects: those in one of `scopes`
/// that the connected version supplies.
pub open spec fn listed(scopes: Seq<FormatScope>, version: crate::version::TmuxVersionView) -> spec_fn(FormatDescriptorView) -> bool {
    |d: FormatDescriptorView| scopes.contains(d.scope) && meets_spec(version, d.minimum)
}

fn contains_scope(scopes: &[FormatScope], scope: FormatScope) -> (r: bool)
    ensures
        r == scopes@.contains(scope),
{
    let mut i: usize = 0;
    while i < scopes.len()
        invariant
            i <= scopes@.len(),
            forall|j: int| 0 <= j < i ==> scopes@[j] != scope,
        decreases scopes.len() - i,
    {
        if scopes[i] == scope {
            assert(scopes@[i as int] == scope);
            return true;
        }
        i = i + 1;
    }
    false
}

/// The catalog fields that a listing in `scopes` requests from `version`, in catalog order.
pub fn fields_for_listing(scopes: &[FormatScope], version: &TmuxVersion) -> (r: Vec<FormatDescriptor>)
    ensures
        descriptor_views(r@) == catalog().filter(listed(scopes@, version@)),
{
    let ghost pred = listed(scopes@, version@);
    let mut out: Vec<FormatDescriptor> = Vec::new();
    let mut i: usize = 0;
    while i < CATALOG_LEN
        invariant
            i <= CATALOG_LEN,
            pred == listed(scopes@, version@),
            descriptor_views(out@) == catalog().take(i as int).filter(pred),
        decreases CATALOG_LEN - i,
    {
        let d = catalog_entry(i);
        proof {
            lemma_take_push(catalog(), i as int);
            let t = catalog().take(i as int + 1);
            assert(t.drop_last() =~= catalog().take(i as int));
            reveal(Seq::filter);
            assert(t.filter(pred) == if pred(t.last()) { t.drop_last().filter(pred).push(t.last()) } else { t.drop_last().filter(pred) });
        }
        if contains_scope(scopes, d.scope) && version.meets(d.minimum) {
            proof {
                lemma_map_push(out@, d, |d: FormatDescriptor| d@);
            }
            out.push(d);
        }
        i = i + 1;
    }
    assert(catalog().take(CATALOG_LEN as int) =~= catalog());
    out
}

/// A field reference: the token inside `#{` and `}`.
pub open spec fn field_ref(token: Seq<char>) -> Seq<char> {
    "#{"@ + token + "}"@
}

/// The format string that requests `fields`, separated by the field separator.
pub open spec fn rendered(fields: Seq<FormatDescriptorView>) -> Seq<char>
    decreases fields.len(),
{
    if fields.len() == 0 {
        Seq::empty()
    } else if fields.len() == 1 {
        field_ref(fields[0].token)
    } else {
        rendered(fields.drop_last()).push(FORMAT_SEPARATOR) + field_ref(fields.last().token)
    }
}

/// Renders the format string that requests `fields`.
pub fn render_format(fields: &[FormatDescriptor]) -> (r: String)
    ensures
        r@ == rendered(descriptor_views(fields@)),
{
    let ghost all = descriptor_views(fields@);
    let mut out = String::new();
    let mut i: usize = 0;
    while i < fields.len()
        invariant
            i <= fields@.len(),
            all == descriptor_views(fields@),
            out@ == rendered(all.take(i as int)),
        decreases fields.len() - i,
    {
        let ghost prev = all.take(i as int);
        let ghost next = all.take(i as int + 1);
        proof {
            assert(next.drop_last() =~= prev);
            assert(next.last() == fields@[i as int]@);
        }
        if i > 0 {
            push_char(&mut out, FORMAT_SEPARATOR);
        }
        append_str(&mut out, "#{");
        append_str(&mut out, fields[i].token);
        append_str(&mut out, "}");
        proof {
            if i == 0 {
                assert(next.len() == 1);
                assert(out@ =~= field_ref(next[0].token));
            } else {
                assert(out@ =~= rendered(prev).push(FORMAT_SEPARATOR) + field_ref(next.last().token));
            }
        }
        i = i + 1;
    }
    assert(all.take(fields@.len() as int) =~= all);
    out
}

/// The UTF-8 bytes of the field separator.
pub open spec fn separator_bytes() -> Seq<u8> {
    seq![0xE2u8, 0x90u8, 0x9Eu8]
}

/// The fields of `line[start..]`, scanning for separators from `pos` on.
pub open spec fn fields_from(line: Seq<u8>, start: int, pos: int) -> Seq<Seq<u8>>
    decreases line.len() - pos,
{
    if pos < start || pos + 3 > line.len() {
        seq![line.subrange(start, line.len() as int)]
    } else if line.subrange(pos, pos + 3) == separator_bytes() {
        seq![line.subrange(start, pos)] + fields_from(line, pos + 3, pos + 3)
    } else {
        fields_from(line, start, pos + 1)
    }
}

/// The fields of one output row: the pieces between separators, scanned left to right.
pub open spec fn row_fields(line: Seq<u8>) -> Seq<Seq<u8>> {
    fields_from(line, 0, 0)
}

/// Values written as one output row: separated by the field separator.
pub open spec fn joined_fields(values: Seq<Seq<u8>>) -> Seq<u8>
    decreases values.len(),
{
    if values.len() == 0 {
        Seq::empty()
    } else if values.len() == 1 {
        values[0]
    } else {
        values[0] + separator_bytes() + joined_fields(values.drop_first())
    }
}

/// The separator's bytes occur nowhere in `v`.
pub open spec fn free_of_separator(v: Seq<u8>) -> bool {
    forall|i: int| 0 <= i && i + 3 <= v.len() ==> #[trigger] v.subrange(i, i + 3) != separator_bytes()
}

proof fn lemma_fields_shift(pre: Seq<u8>, line: Seq<u8>, s: int, p: int)
    requires
        0 <= s <= p <= line.len(),
    ensures
        fields_from(pre + line, pre.len() + s, pre.len() + p) == fields_from(line, s, p),
    decreases line.len() - p,
{
    let whole = pre + line;
    let ps = pre.len() + s;
    let pp = pre.len() + p;
    if p + 3 > line.len() {
        assert(whole.subrange(ps, whole.len() as int) =~= line.subrange(s, line.len() as int));
    } else {
        assert(whole.subrange(pp, pp + 3) =~= line.subrange(p, p + 3));
        if line.subrange(p, p + 3) == separator_bytes() {
            assert(whole.subrange(ps, pp) =~= line.subrange(s, p));
            lemma_fields_shift(pre, line, p + 3, p + 3);
        } else {
            lemma_fields_shift(pre, line, s, p + 1);
        }
    }
}

proof fn lemma_fields_no_separator(line: Seq<u8>, s: int, p: int)
    requires
        0 <= s <= p <= line.len(),
        forall|i: int| p <= i && i + 3 <= line.len() ==> #[trigger] line.subrange(i, i + 3) != separator_bytes(),
    ensures
        fields_from(line, s, p) == seq![line.subrange(s, line.len() as int)],
    decreases line.len() - p,
{
    if p + 3 <= line.len() {
        assert(line.subrange(p, p + 3) != separator_bytes());
        lemma_fields_no_separator(line, s, p + 1);
    }
}

proof fn lemma_fields_until(line: Seq<u8>, s: int, p: int, q: int)
    requires
        0 <= s <= p <= q,
        q + 3 <= line.len(),
        forall|i: int| p <= i < q ==> #[trigger] line.subrange(i, i + 3) != separator_bytes(),
        line.subrange(q, q + 3) == separator_bytes(),
    ensures
        fields_from(line, s, p) == seq![line.subrange(s, q)] + fields_from(line, q + 3, q + 3),
    decreases q - p,
{
    if p < q {
        assert(line.subrange(p, p + 3) != separator_bytes());
        lemma_fields_until(line, s, p + 1, q);
    }
}

/// Writing values as one row and splitting that row gives the values back,
/// provided no value holds the separator.
pub proof fn law_row_fields_round_trip(values: Seq<Seq<u8>>)
    requires
        values.len() >= 1,
        forall|i: int| 0 <= i < values.len() ==> free_of_separator(#[trigger] values[i]),
    ensures
        row_fields(joined_fields(values)) == values,
    decreases values.len(),
{
    let line = joined_fields(values);
    if values.len() == 1 {
        let v = values[0];
        assert(free_of_separator(v));
        lemma_fields_no_separator(line, 0, 0);
        assert(line.subrange(0, line.len() as int) =~= line);
        assert(seq![v] =~= values);
    } else {
        let v = values[0];
        let rest = values.drop_first();
        assert(free_of_separator(v));
        assert forall|i: int| 0 <= i < rest.len() implies free_of_separator(#[trigger] rest[i]) by {
            assert(rest[i] == values[i + 1]);
        }
        law_row_fields_round_trip(rest);
        let head = v + separator_bytes();
        assert(line =~= head + joined_fields(rest));
        let n = v.len() as int;
        assert forall|i: int| 0 <= i < n implies #[trigger] line.subrange(i, i + 3) != separator_bytes() by {
            if i + 3 <= n {
                assert(line.subrange(i, i + 3) =~= v.subrange(i, i + 3));
            } else if i == n - 1 {
                assert(line.subrange(i, i + 3)[1] == 0xE2u8);
            } else {
                assert(line.subrange(i, i + 3)[2] == 0xE2u8);
            }
        }
        assert(line.subrange(n, n + 3) =~= separator_bytes());
        lemma_fields_until(line, 0, 0, n);
        assert(line.subrange(0, n) =~= v);
        lemma_fields_shift(head, joined_fields(rest), 0, 0);
        assert(seq![v] + rest =~= values);
    }
}

proof fn lemma_joined_free(values: Seq<Seq<u8>>, b: u8)
    requires
        !separator_bytes().contains(b),
        forall|i: int| 0 <= i < values.len() ==> !(#[trigger] values[i]).contains(b),
    ensures
        !joined_fields(values).contains(b),
    decreases values.len(),
{
    if values.len() > 1 {
        let rest = values.drop_first();
        assert forall|i: int| 0 <= i < rest.len() implies !(#[trigger] rest[i]).contains(b) by {
            assert(rest[i] == values[i + 1]);
        }
        lemma_joined_free(rest, b);
        let v = values[0];
        assert(!v.contains(b));
        let whole = v + separator_bytes() + joined_fields(rest);
        assert forall|k: int| 0 <= k < whole.len() implies whole[k] != b by {
            if k < v.len() {
                assert(whole[k] == v[k]);
            } else if k < v.len() + 3 {
                assert(whole[k] == separator_bytes()[k - v.len()]);
            } else {
                assert(whole[k] == joined_fields(rest)[k - v.len() - 3]);
            }
        }
    } else if values.len() == 1 {
        assert(!values[0].contains(b));
    }
}

/// A listing line written from values, one per field, decodes to the row
/// that pairs each field's token with its value, provided no value holds the
/// separator or a newline and the line is not empty.
pub proof fn law_listing_round_trip(values: Seq<Seq<u8>>, fields: Seq<FormatDescriptorView>)
    requires
        values.len() >= 1,
        values.len() == fields.len(),
        forall|i: int| 0 <= i < values.len() ==> free_of_separator(#[trigger] values[i]),
        forall|i: int| 0 <= i < values.len() ==> !(#[trigger] values[i]).contains(10u8),
        joined_fields(values).len() > 0,
    ensures
        parsed_rows(joined_fields(values).push(10u8), fields) == Ok::<Seq<Map<Seq<char>, Seq<u8>>>, ErrorView>(seq![row_map(fields, values)]),
{
    let line = joined_fields(values);
    assert(!separator_bytes().contains(10u8)) by {
        if separator_bytes().contains(10u8) {
            let k = choose|k: int| 0 <= k < 3 && separator_bytes()[k] == 10u8;
            assert(separator_bytes()[k] != 10u8);
        }
    }
    lemma_joined_free(values, 10u8);
    crate::text::lemma_split_on_free(line, 10u8);
    assert(line.push(10u8).drop_last() =~= line);
    assert(line.push(10u8).last() == 10u8);
    let pieces = split_on(line.push(10u8), 10u8);
    assert(pieces =~= seq![line, Seq::<u8>::empty()]);
    assert(pieces.drop_last() =~= seq![line]);
    assert(seq![line].drop_last() =~= Seq::<Seq<u8>>::empty());
    assert(pieces.last().len() == 0);
    assert(nonempty_pieces(pieces) == nonempty_pieces(pieces.drop_last()));
    assert(seq![line].last() == line);
    assert(nonempty_pieces(Seq::<Seq<u8>>::empty()) =~= Seq::<Seq<u8>>::empty());
    assert(nonempty_pieces(seq![line]) == nonempty_pieces(Seq::<Seq<u8>>::empty()).push(line));
    assert(nonempty_pieces(seq![line]) =~= seq![line]);
    law_row_fields_round_trip(values);
    let lines = seq![line];
    assert(lines.drop_last() =~= Seq::<Seq<u8>>::empty());
    assert(lines.last() == line);
    assert(rows_of(Seq::<Seq<u8>>::empty(), fields) == Ok::<Seq<Map<Seq<char>, Seq<u8>>>, ErrorView>(Seq::empty()));
    assert(Seq::<Map<Seq<char>, Seq<u8>>>::empty().push(row_map(fields, values)) =~= seq![row_map(fields, values)]);
}

/// Splits one output row at the field separator.
pub fn split_fields(line: &[u8]) -> (r: Vec<Vec<u8>>)
    ensures
        r@.map_values(|v: Vec<u8>| v@) == row_fields(line@),
{
    let n = line.len();
    let mut out: Vec<Vec<u8>> = Vec::new();
    let mut start: usize = 0;
    let mut pos: usize = 0;
    while n - pos >= 3
        invariant
            n == line@.len(),
            start <= pos <= n,
            out@.map_values(|v: Vec<u8>| v@) + fields_from(line@, start as int, pos as int) == row_fields(line@),
        decreases n - pos,
    {
        if line[pos] == 0xE2u8 && line[pos + 1] == 0x90u8 && line[pos + 2] == 0x9Eu8 {
            assert(line@.subrange(pos as int, pos + 3) =~= separator_bytes());
            let piece = vstd::slice::slice_to_vec(slice_subrange(line, start, pos));
            proof {
                lemma_map_push(out@, piece, |v: Vec<u8>| v@);
                let rest = fields_from(line@, pos + 3, pos + 3);
                assert(fields_from(line@, start as int, pos as int) == seq![line@.subrange(start as int, pos as int)] + rest);
                assert(out@.map_values(|v: Vec<u8>| v@).push(piece@) + rest
                    =~= out@.map_values(|v: Vec<u8>| v@) + (seq![line@.subrange(start as int, pos as int)] + rest));
            }
            out.push(piece);
            pos = pos + 3;
            start = pos;
        } else {
            assert(line@.subrange(pos as int, pos + 3) != separator_bytes()) by {
                if line@.subrange(pos as int, pos + 3) == separator_bytes() {
                    assert(line@.subrange(pos as int, pos + 3)[0] == line@[pos as int]);
                    assert(line@.subrange(pos as int, pos + 3)[1] == line@[pos + 1]);
                    assert(line@.subrange(pos as int, pos + 3)[2] == line@[pos + 2]);
                }
            }
            pos = pos + 1;
        }
    }
    let piece = vstd::slice::slice_to_vec(slice_subrange(line, start, n));
    proof {
        lemma_map_push(out@, piece, |v: Vec<u8>| v@);
        assert(fields_from(line@, start as int, pos as int) == seq![line@.subrange(start as int, n as int)]);
        assert(out@.map_values(|v: Vec<u8>| v@).push(piece@)
            =~= out@.map_values(|v: Vec<u8>| v@) + seq![line@.subrange(start as int, n as int)]);
    }
    out.push(piece);
    out
}

fn slice_subrange(s: &[u8], from: usize, to: usize) -> (r: &[u8])
    requires
        from <= to <= s@.len(),
    ensures
        r@ == s@.subrange(from as int, to as int),
{
    vstd::slice::slice_subrange(s, from, to)
}

/// The row that pairs each field's token with the value in its position, a later
/// field overriding an earlier one with the same token.
pub open spec fn row_map(fields: Seq<FormatDescriptorView>, values: Seq<Seq<u8>>) -> Map<Seq<char>, Seq<u8>>
    decreases fields.len(),
{
    if fields.len() == 0 || values.len() == 0 {
        Map::empty()
    } else {
        row_map(fields.drop_last(), values.drop_last()).insert(fields.last().token, values.last())
    }
}

/// The byte content of each value of a row.
pub open spec fn row_bytes(row: Map<Seq<char>, TmuxText>) -> Map<Seq<char>, Seq<u8>> {
    row.map_values(|t: TmuxText| t@)
}

/// The error for a row with the wrong number of fields.
pub open spec fn row_count_error(expected: nat, received: nat) -> ErrorView {
    decode_error("tmux format row"@, "expected "@ + decimal(expected) + " fields, received "@ + decimal(received))
}

/// The rows that output lines decode to, or the error of the first malformed line.
pub open spec fn rows_of(lines: Seq<Seq<u8>>, fields: Seq<FormatDescriptorView>) -> Result<Seq<Map<Seq<char>, Seq<u8>>>, ErrorView>
    decreases lines.len(),
{
    if lines.len() == 0 {
        Ok(Seq::empty())
    } else {
        match rows_of(lines.drop_last(), fields) {
            Err(e) => Err(e),
            Ok(rows) => {
                let values = row_fields(lines.last());
                if values.len() != fields.len() {
                    Err(row_count_error(fields.len(), values.len()))
                } else {
                    Ok(rows.push(row_map(fields, values)))
                }
            },
        }
    }
}

/// The rows of tmux listing output: one per non-empty line.
pub open spec fn parsed_rows(bytes: Seq<u8>, fields: Seq<FormatDescriptorView>) -> Result<Seq<Map<Seq<char>, Seq<u8>>>, ErrorView> {
    rows_of(nonempty_pieces(split_on(bytes, 10u8)), fields)
}

proof fn lemma_map_values_insert<V, W>(m: Map<Seq<char>, V>, k: Seq<char>, v: V, f: spec_fn(V) -> W)
    ensures
        m.insert(k, v).map_values(f) == m.map_values(f).insert(k, f(v)),
{
    assert(m.insert(k, v).map_values(f) =~= m.map_values(f).insert(k, f(v)));
}

fn build_row(fields: &[FormatDescriptor], values: Vec<Vec<u8>>) -> (r: StrMap<TmuxText>)
    requires
        fields@.len() == values@.len(),
    ensures
        row_bytes(r@) == row_map(descriptor_views(fields@), values@.map_values(|v: Vec<u8>| v@)),
{
    let ghost fv = descriptor_views(fields@);
    let ghost vv = values@.map_values(|v: Vec<u8>| v@);
    let mut row: StrMap<TmuxText> = StrMap::new();
    let mut j: usize = 0;
    proof {
        assert(row_bytes(row@) =~= Map::<Seq<char>, Seq<u8>>::empty());
        assert(fv.take(0).len() == 0);
    }
    while j < fields.len()
        invariant
            j <= fields@.len(),
            fields@.len() == values@.len(),
            fv == descriptor_views(fields@),
            vv == values@.map_values(|v: Vec<u8>| v@),
            row_bytes(row@) == row_map(fv.take(j as int), vv.take(j as int)),
        decreases fields.len() - j,
    {
        let token = owned(fields[j].token);
        let text = TmuxText::new(vstd::slice::slice_to_vec(values[j].as_slice()));
        proof {
            let f2 = fv.take(j as int + 1);
            let v2 = vv.take(j as int + 1);
            assert(f2.drop_last() =~= fv.take(j as int));
            assert(v2.drop_last() =~= vv.take(j as int));
            assert(f2.last() == fields@[j as int]@);
            assert(v2.last() == values@[j as int]@);
            lemma_map_values_insert(row@, token@, text, |t: TmuxText| t@);
        }
        row.insert(token, text);
        j = j + 1;
    }
    assert(fv.take(fields@.len() as int) =~= fv);
    assert(vv.take(fields@.len() as int) =~= vv);
    row
}

fn row_count_message(expected: usize, received: usize) -> (r: String)
    ensures
        r@ == "expected "@ + decimal(expected as nat) + " fields, received "@ + decimal(received as nat),
{
    let mut message = owned("expected ");
    let e = decimal_chars(expected as u64);
    append_chars(&mut message, e.as_slice());
    append_str(&mut message, " fields, received ");
    let r = decimal_chars(received as u64);
    append_chars(&mut message, r.as_slice());
    message
}

/// Decodes listing output into one row per non-empty line, pairing the
/// fields' tokens with the values between separators.
pub fn parse_rows(bytes: &[u8], fields: &[FormatDescriptor]) -> (r: Result<Vec<StrMap<TmuxText>>, Error>)
    ensures
        match parsed_rows(bytes@, descriptor_views(fields@)) {
            Ok(rows) => r matches Ok(v) && v@.len() == rows.len()
                && forall|i: int| 0 <= i < rows.len() ==> #[trigger] row_bytes(v@[i]@) == rows[i],
            Err(e) => r matches Err(x) && x@ == e,
        },
{
    let ghost fv = descriptor_views(fields@);
    let lines = split_nonempty(bytes, 10u8);
    let ghost lv = lines@.map_values(|v: Vec<u8>| v@);
    let mut rows: Vec<StrMap<TmuxText>> = Vec::new();
    let mut i: usize = 0;
    while i < lines.len()
        invariant
            i <= lines@.len(),
            fv == descriptor_views(fields@),
            lv == lines@.map_values(|v: Vec<u8>| v@),
            lv == nonempty_pieces(split_on(bytes@, 10u8)),
            rows_of(lv.take(i as int), fv) matches Ok(done) && done.len() == rows@.len()
                && forall|j: int| 0 <= j < done.len() ==> #[trigger] row_bytes(rows@[j]@) == done[j],
        decreases lines.len() - i,
    {
        let ghost prev = lv.take(i as int);
        let ghost next = lv.take(i as int + 1);
        proof {
            assert(next.drop_last() =~= prev);
            assert(next.last() == lines@[i as int]@);
        }
        let values = split_fields(lines[i].as_slice());
        if values.len() != fields.len() {
            proof {
                assert(rows_of(next, fv) == Err::<Seq<Map<Seq<char>, Seq<u8>>>, ErrorView>(row_count_error(fv.len(), values@.len() as nat)));
                lemma_rows_error_persists(lv, fv, i as int + 1);
            }
            let message = row_count_message(fields.len(), values.len());
            return Err(Error::Decode { context: "tmux format row", message });
        }
        let row = build_row(fields, values);
        rows.push(row);
        i = i + 1;
    }
    assert(lv.take(lines@.len() as int) =~= lv);
    Ok(rows)
}

proof fn lemma_rows_error_persists(lines: Seq<Seq<u8>>, fields: Seq<FormatDescriptorView>, k: int)
    requires
        0 <= k <= lines.len(),
        rows_of(lines.take(k), fields) is Err,
    ensures
        rows_of(lines, fields) == rows_of(lines.take(k), fields),
    decreases lines.len() - k,
{
    if k < lines.len() {
        let next = lines.take(k + 1);
        assert(next.drop_last() =~= lines.take(k));
        lemma_rows_error_persists(lines, fields, k + 1);
    } else {
        assert(lines.take(k) =~= lines);
    }
}

/// A known catalog token or an explicitly requested custom tmux token.
#[derive(Clone, Debug, Eq, Hash, PartialEq)]
pub enum FormatToken {
    /// A catalog entry.
    Known(FormatDescriptor),
    /// A caller-defined token, without `#{}`.
    Custom(String),
}

/// The token text of a [`FormatToken`].
pub open spec fn format_token_text(t: FormatToken) -> Seq<char> {
    match t {
        FormatToken::Known(d) => d@.token,
        FormatToken::Custom(s) => s@,
    }
}

/// Whether a custom token is acceptable: non-empty, without braces or the field separator.
pub open spec fn valid_custom_token(s: Seq<char>) -> bool {
    s.len() > 0 && !s.contains('{') && !s.contains('}') && !s.contains(FORMAT_SEPARATOR)
}

impl FormatToken {
    /// Validates a custom tmux format token.
    pub fn custom(value: String) -> (r: Result<Self, Error>)
        ensures
            valid_custom_token(value@) ==> (r matches Ok(t) && t == FormatToken::Custom(value)),
            !valid_custom_token(value@) ==> (r matches Err(e) && e@ == crate::error::invalid_argument(
                "format token", "must be non-empty and contain no braces or field separator")),
    {
        let chars = chars_of(value.as_str());
        if chars.len() == 0 || contains_char(chars.as_slice(), '{') || contains_char(chars.as_slice(), '}')
            || contains_char(chars.as_slice(), FORMAT_SEPARATOR)
        {
            return Err(crate::error::invalid_argument_error(
                "format token", "must be non-empty and contain no braces or field separator"));
        }
        Ok(FormatToken::Custom(value))
    }

    /// Returns the token without delimiters.
    pub fn as_str(&self) -> (r: &str)
        ensures
            r@ == format_token_text(*self),
    {
        match self {
            FormatToken::Known(d) => d.token(),
            FormatToken::Custom(v) => v.as_str(),
        }
    }
}

/// A raw tmux native filter expression passed through via `-f`.
#[derive(Clone, Debug, Eq, Hash, PartialEq)]
pub struct NativeFilter(String);

impl View for NativeFilter {
    type V = Seq<char>;

    closed spec fn view(&self) -> Seq<char> {
        self.0@
    }
}

impl NativeFilter {
    /// Creates a non-empty native filter expression.
    pub fn new(value: String) -> (r: Result<Self, Error>)
        ensures
            value@.len() > 0 ==> (r matches Ok(f) && f@ == value@),
            value@.len() == 0 ==> (r matches Err(e) && e@ == crate::error::invalid_argument("native filter", "must not be empty")),
    {
        if value.as_str().unicode_len() == 0 {
            return Err(crate::error::invalid_argument_error("native filter", "must not be empty"));
        }
        Ok(NativeFilter(value))
    }

    /// Returns the tmux expression.
    pub fn as_str(&self) -> (r: &str)
        ensures
            r@ == self@,
    {
        self.0.as_str()
    }
}

/// Every catalog entry has a token that a custom token could also be (non-empty,
/// without braces or the field separator), needs at least the oldest supported
/// release, and has a token of its own: no two entries share one, so
/// `format_descriptor` answers an entry's token with that very entry.
pub proof fn law_catalog_entries(i: int, j: int)
    requires
        0 <= i < CATALOG_LEN,
        0 <= j < CATALOG_LEN,
    ensures
        valid_custom_token(catalog_view(i as usize).token),
        !crate::version::release_lt(catalog_view(i as usize).minimum, minimum_release()),
        first_with_token(catalog_view(i as usize).token, i),
        i != j ==> catalog_view(i as usize).token != catalog_view(j as usize).token,
{
    assert forall|k: int| 0 <= k < CATALOG_LEN implies
        !crate::version::release_lt(#[trigger] catalog_view(k as usize).minimum, minimum_release()) by {
        reveal(catalog_view);
    }
    lemma_catalog_tokens();
    assert forall|k: int| 0 <= k < i implies #[trigger] catalog_view(k as usize).token != catalog_view(i as usize).token by {
        assert(token_position(catalog_view(k as usize).token) == k);
    }
    assert(token_position(catalog_view(j as usize).token) == j);
}

/// The catalog position of a token, read off the length and the characters
/// that tell the catalog's tokens apart; -1 where no entry could carry it.
spec fn token_position(s: Seq<char>) -> int {
    if s.len() == 3 {
        match s[0] { 'p' => 0, 'u' => 8, _ => -1 }
    } else if s.len() == 4 {
        match s[0] { 'h' => 2, 'l' => 4, 'u' => 9, _ => -1 }
    } else if s.len() == 6 {
        match s[5] { 'x' => 135, 'y' => 136, 'z' => 137, _ => -1 }
    } else if s.len() == 7 {
        match s[5] { 'b' => 118, 'f' => 120, 'i' => 71, 'o' => 10, _ => -1 }
    } else if s.len() == 8 {
        match s[6] {
            '_' => match s[7] { 'x' => 100, 'y' => 101, _ => -1 },
            'i' => 84,
            'o' => 132,
            't' => 83,
            _ => -1,
        }
    } else if s.len() == 9 {
        match s[7] {
            'a' => match s[0] { 'p' => 77, 'w' => 109, _ => -1 },
            'b' => 131,
            'd' => 126,
            'f' => 123,
            'i' => 37,
            'p' => 128,
            's' => 122,
            't' => 127,
            _ => -1,
        }
    } else if s.len() == 10 {
        match s[7] {
            '_' => 11,
            'a' => 133,
            'd' => match s[5] { 'i' => 72, 'w' => 73, _ => -1 },
            'g' => 129,
            'i' => 7,
            'o' => 3,
            'p' => 153,
            't' => match s[0] { 'c' => 145, 'p' => 75, _ => -1 },
            'u' => 166,
            _ => -1,
        }
    } else if s.len() == 11 {
        match s[5] {
            'a' => match s[6] { 'c' => 76, 't' => 93, _ => -1 },
            'b' => 119,
            'd' => 108,
            'f' => 121,
            'h' => 74,
            'm' => 124,
            'n' => 117,
            'r' => match s[7] { 'f' => 105, 'n' => 169, 's' => 170, _ => -1 },
            't' => match s[9] { 'a' => 106, 'e' => 167, 'f' => 155, 'm' => 144, 't' => 6, _ => -1 },
            'w' => 39,
            _ => -1,
        }
    } else if s.len() == 12 {
        match s[10] {
            'c' => 185,
            'd' => 81,
            'e' => match s[7] { 'f' => 1, 'i' => 38, 'p' => 44, _ => -1 },
            'f' => 91,
            'g' => match s[0] { 'c' => 158, 'w' => 45, _ => -1 },
            'l' => 184,
            'm' => 12,
            'o' => 104,
            't' => match s[0] { 'c' => 151, 's' => 33, 'w' => 40, _ => -1 },
            'z' => 95,
            _ => -1,
        }
    } else if s.len() == 13 {
        match s[8] {
            'a' => match s[0] { 'b' => 171, 'w' => 42, _ => -1 },
            'b' => 97,
            'c' => 46,
            'e' => match s[0] { 'c' => 152, 'p' => 141, 'w' => 41, _ => -1 },
            'g' => 23,
            'i' => match s[7] { 'b' => 56, 'l' => 62, _ => -1 },
            'l' => 96,
            'o' => 60,
            'r' => match s[0] { 'c' => 154, 'p' => 92, _ => -1 },
            's' => match s[12] { 'e' => 140, 'k' => 34, 'x' => 174, 'y' => 175, _ => -1 },
            'w' => 14,
            _ => -1,
        }
    } else if s.len() == 14 {
        match s[8] {
            'a' => 20,
            'b' => 94,
            'd' => 80,
            'e' => 147,
            'f' => 22,
            'h' => 15,
            'l' => 115,
            'm' => 32,
            'r' => match s[7] { 'c' => 149, 'g' => 116, 'w' => 168, _ => -1 },
            'u' => 89,
            'y' => 112,
            _ => -1,
        }
    } else if s.len() == 15 {
        match s[11] {
            '_' => 125,
            'a' => 16,
            'd' => 13,
            'e' => match s[14] { 'x' => 66, 'y' => 67, _ => -1 },
            'f' => match s[0] { 'm' => 113, 'w' => 59, _ => -1 },
            'n' => match s[14] { 'd' => 5, 'e' => 146, 'x' => 177, 'y' => 178, _ => -1 },
            'o' => 156,
            'p' => 86,
            't' => match s[0] { 'c' => 165, 's' => 176, _ => -1 },
            'u' => 29,
            'v' => match s[0] { 'c' => 150, 'w' => 55, _ => -1 },
            _ => -1,
        }
    } else if s.len() == 16 {
        match s[9] {
            '_' => match s[11] { 'i' => 79, 't' => 78, _ => -1 },
            'a' => 114,
            'c' => 19,
            'e' => 138,
            'l' => 47,
            'o' => match s[12] { 'l' => 172, 'w' => 173, _ => -1 },
            'r' => 139,
            's' => match s[0] { 'c' => 161, 'w' => 61, _ => -1 },
            't' => 18,
            'w' => 68,
            'y' => 162,
            _ => -1,
        }
    } else if s.len() == 17 {
        match s[7] {
            '_' => 182,
            'c' => match s[0] { 'c' => 160, 'w' => 58, _ => -1 },
            'n' => match s[0] { 'l' => 36, 'p' => 82, _ => -1 },
            'o' => match s[16] { 'x' => 179, 'y' => 180, _ => -1 },
            'r' => 87,
            's' => 70,
            't' => match s[16] { 'x' => 98, 'y' => 99, _ => -1 },
            'u' => 111,
            _ => -1,
        }
    } else if s.len() == 18 {
        match s[10] {
            '_' => 85,
            'c' => 69,
            'e' => 163,
            'h' => 130,
            'i' => 134,
            'k' => 65,
            'l' => match s[0] { 'c' => 159, 'w' => 57, _ => -1 },
            'm' => 50,
            'o' => match s[14] { 'l' => 26, 's' => 28, _ => -1 },
            's' => match s[0] {
                'b' => 142,
                'c' => match s[13] { 'a' => 181, 'u' => 183, _ => -1 },
                'k' => 107,
                _ => -1,
            },
            _ => -1,
        }
    } else if s.len() == 19 {
        match s[16] {
            'd' => 35,
            'g' => 90,
            'i' => 148,
            'l' => match s[0] { 'm' => 110, 'w' => 49, _ => -1 },
            'o' => 157,
            'p' => 102,
            'r' => 164,
            'w' => 103,
            _ => -1,
        }
    } else if s.len() == 20 {
        match s[0] { 'p' => 88, 'w' => 48, _ => -1 }
    } else if s.len() == 21 {
        match s[8] { 'a' => 21, 'c' => 51, 'i' => 43, 'l' => 30, 'm' => 31, _ => -1 }
    } else if s.len() == 22 {
        match s[10] { 'e' => 17, 'i' => 53, 'k' => 63, 'o' => 24, _ => -1 }
    } else if s.len() == 24 {
        143
    } else if s.len() == 26 {
        52
    } else if s.len() == 27 {
        match s[7] { '_' => match s[14] { 'a' => 25, 'm' => 27, _ => -1 }, 'a' => 54, 'l' => 64, _ => -1 }
    } else {
        -1
    }
}

proof fn lemma_catalog_tokens()
    ensures
        forall|i: int| 0 <= i < CATALOG_LEN ==> #[trigger] token_position(catalog_view(i as usize).token) == i,
        forall|i: int| 0 <= i < CATALOG_LEN ==> #[trigger] valid_custom_token(catalog_view(i as usize).token),
{
    reveal_strlit("pid");
    reveal_strlit("config_files");
    reveal_strlit("host");
    reveal_strlit("host_short");
    reveal_strlit("line");
    reveal_strlit("next_session_id");
    reveal_strlit("socket_path");
    reveal_strlit("start_time");
    reveal_strlit("uid");
    reveal_strlit("user");
    reveal_strlit("version");
    reveal_strlit("session_id");
    reveal_strlit("session_name");
    reveal_strlit("session_windows");
    reveal_strlit("session_width");
    reveal_strlit("session_height");
    reveal_strlit("session_created");
    reveal_strlit("session_created_string");
    reveal_strlit("session_attached");
    reveal_strlit("session_activity");
    reveal_strlit("session_alerts");
    reveal_strlit("session_attached_list");
    reveal_strlit("session_format");
    reveal_strlit("session_group");
    reveal_strlit("session_group_attached");
    reveal_strlit("session_group_attached_list");
    reveal_strlit("session_group_list");
    reveal_strlit("session_group_many_attached");
    reveal_strlit("session_group_size");
    reveal_strlit("session_grouped");
    reveal_strlit("session_last_attached");
    reveal_strlit("session_many_attached");
    reveal_strlit("session_marked");
    reveal_strlit("session_path");
    reveal_strlit("session_stack");
    reveal_strlit("active_window_index");
    reveal_strlit("last_window_index");
    reveal_strlit("window_id");
    reveal_strlit("window_index");
    reveal_strlit("window_name");
    reveal_strlit("window_width");
    reveal_strlit("window_height");
    reveal_strlit("window_layout");
    reveal_strlit("window_visible_layout");
    reveal_strlit("window_panes");
    reveal_strlit("window_flags");
    reveal_strlit("window_active");
    reveal_strlit("window_bell_flag");
    reveal_strlit("window_activity_flag");
    reveal_strlit("window_silence_flag");
    reveal_strlit("window_zoomed_flag");
    reveal_strlit("window_active_clients");
    reveal_strlit("window_active_clients_list");
    reveal_strlit("window_active_sessions");
    reveal_strlit("window_active_sessions_list");
    reveal_strlit("window_activity");
    reveal_strlit("window_bigger");
    reveal_strlit("window_cell_height");
    reveal_strlit("window_cell_width");
    reveal_strlit("window_end_flag");
    reveal_strlit("window_format");
    reveal_strlit("window_last_flag");
    reveal_strlit("window_linked");
    reveal_strlit("window_linked_sessions");
    reveal_strlit("window_linked_sessions_list");
    reveal_strlit("window_marked_flag");
    reveal_strlit("window_offset_x");
    reveal_strlit("window_offset_y");
    reveal_strlit("window_raw_flags");
    reveal_strlit("window_stack_index");
    reveal_strlit("window_start_flag");
    reveal_strlit("pane_id");
    reveal_strlit("pane_index");
    reveal_strlit("pane_width");
    reveal_strlit("pane_height");
    reveal_strlit("pane_title");
    reveal_strlit("pane_active");
    reveal_strlit("pane_dead");
    reveal_strlit("pane_dead_status");
    reveal_strlit("pane_dead_signal");
    reveal_strlit("pane_dead_time");
    reveal_strlit("pane_in_mode");
    reveal_strlit("pane_synchronized");
    reveal_strlit("pane_tty");
    reveal_strlit("pane_pid");
    reveal_strlit("pane_start_command");
    reveal_strlit("pane_start_path");
    reveal_strlit("pane_current_path");
    reveal_strlit("pane_current_command");
    reveal_strlit("pane_input_off");
    reveal_strlit("pane_unseen_changes");
    reveal_strlit("pane_at_left");
    reveal_strlit("pane_at_right");
    reveal_strlit("pane_at_top");
    reveal_strlit("pane_at_bottom");
    reveal_strlit("history_size");
    reveal_strlit("history_limit");
    reveal_strlit("history_bytes");
    reveal_strlit("alternate_saved_x");
    reveal_strlit("alternate_saved_y");
    reveal_strlit("cursor_x");
    reveal_strlit("cursor_y");
    reveal_strlit("scroll_region_upper");
    reveal_strlit("scroll_region_lower");
    reveal_strlit("alternate_on");
    reveal_strlit("cursor_flag");
    reveal_strlit("insert_flag");
    reveal_strlit("keypad_cursor_flag");
    reveal_strlit("keypad_flag");
    reveal_strlit("wrap_flag");
    reveal_strlit("mouse_standard_flag");
    reveal_strlit("mouse_button_flag");
    reveal_strlit("mouse_any_flag");
    reveal_strlit("mouse_utf8_flag");
    reveal_strlit("cursor_character");
    reveal_strlit("mouse_all_flag");
    reveal_strlit("mouse_sgr_flag");
    reveal_strlit("origin_flag");
    reveal_strlit("pane_bg");
    reveal_strlit("pane_bottom");
    reveal_strlit("pane_fg");
    reveal_strlit("pane_format");
    reveal_strlit("pane_last");
    reveal_strlit("pane_left");
    reveal_strlit("pane_marked");
    reveal_strlit("pane_marked_set");
    reveal_strlit("pane_mode");
    reveal_strlit("pane_path");
    reveal_strlit("pane_pipe");
    reveal_strlit("pane_right");
    reveal_strlit("pane_search_string");
    reveal_strlit("pane_tabs");
    reveal_strlit("pane_top");
    reveal_strlit("pane_flags");
    reveal_strlit("pane_floating_flag");
    reveal_strlit("pane_x");
    reveal_strlit("pane_y");
    reveal_strlit("pane_z");
    reveal_strlit("pane_zoomed_flag");
    reveal_strlit("pane_pb_progress");
    reveal_strlit("pane_pb_state");
    reveal_strlit("pane_pipe_pid");
    reveal_strlit("bracket_paste_flag");
    reveal_strlit("synchronized_output_flag");
    reveal_strlit("client_name");
    reveal_strlit("client_tty");
    reveal_strlit("client_termname");
    reveal_strlit("client_session");
    reveal_strlit("client_last_session");
    reveal_strlit("client_created");
    reveal_strlit("client_activity");
    reveal_strlit("client_width");
    reveal_strlit("client_height");
    reveal_strlit("client_pid");
    reveal_strlit("client_prefix");
    reveal_strlit("client_utf8");
    reveal_strlit("client_readonly");
    reveal_strlit("client_control_mode");
    reveal_strlit("client_flags");
    reveal_strlit("client_cell_height");
    reveal_strlit("client_cell_width");
    reveal_strlit("client_discarded");
    reveal_strlit("client_key_table");
    reveal_strlit("client_mode_format");
    reveal_strlit("client_termfeatures");
    reveal_strlit("client_termtype");
    reveal_strlit("client_uid");
    reveal_strlit("client_user");
    reveal_strlit("client_written");
    reveal_strlit("buffer_name");
    reveal_strlit("buffer_size");
    reveal_strlit("buffer_sample");
    reveal_strlit("copy_cursor_line");
    reveal_strlit("copy_cursor_word");
    reveal_strlit("copy_cursor_x");
    reveal_strlit("copy_cursor_y");
    reveal_strlit("scroll_position");
    reveal_strlit("selection_end_x");
    reveal_strlit("selection_end_y");
    reveal_strlit("selection_start_x");
    reveal_strlit("selection_start_y");
    reveal_strlit("command_list_alias");
    reveal_strlit("command_list_name");
    reveal_strlit("command_list_usage");
    reveal_strlit("current_file");
    reveal_strlit("search_match");
    assert forall|i: int| 0 <= i < CATALOG_LEN implies #[trigger] token_position(catalog_view(i as usize).token) == i by {
        reveal(catalog_view);
    }
    assert forall|i: int| 0 <= i < CATALOG_LEN implies #[trigger] valid_custom_token(catalog_view(i as usize).token) by {
        reveal(catalog_view);
    }
}

/// A release `major.minor`, with its letter suffix if any.
pub open spec fn release_view(major: u16, minor: u16, suffix: Option<char>) -> ReleaseVersionView {
    ReleaseVersionView { major, minor, suffix }
}

/// Catalog entries 0 to 31: each token with the context that supplies
/// it, the type it decodes to and the first tmux release that has it.
#[verifier::spinoff_prover]
pub proof fn law_catalog_rows_0_to_31()
    ensures
        catalog_view(0) == descriptor_view("pid"@, FormatScope::Universal, DecodedType::Unsigned, release_view(3, 2, Some('a'))),
        catalog_view(1) == descriptor_view("config_files"@, FormatScope::Universal, DecodedType::Text, release_view(3, 2, Some('a'))),
        catalog_view(2) == descriptor_view("host"@, FormatScope::Universal, DecodedType::Text, release_view(3, 2, Some('a'))),
        catalog_view(3) == descriptor_view("host_short"@, FormatScope::Universal, DecodedType::Text, release_view(3, 2, Some('a'))),
        catalog_view(4) == descriptor_view("line"@, FormatScope::Universal, DecodedType::Unsigned, release_view(3, 2, Some('a'))),
        catalog_view(5) == descriptor_view("next_session_id"@, FormatScope::Universal, DecodedType::Unsigned, release_view(3, 2, Some('a'))),
        catalog_view(6) == descriptor_view("socket_path"@, FormatScope::Universal, DecodedType::Text, release_view(3, 2, Some('a'))),
        catalog_view(7) == descriptor_view("start_time"@, FormatScope::Universal, DecodedType::Timestamp, release_view(3, 2, Some('a'))),
        catalog_view(8) == descriptor_view("uid"@, FormatScope::Universal, DecodedType::Unsigned, release_view(3, 2, Some('a'))),
        catalog_view(9) == descriptor_view("user"@, FormatScope::Universal, DecodedType::Text, release_view(3, 2, Some('a'))),
        catalog_view(10) == descriptor_view("version"@, FormatScope::Universal, DecodedType::Text, release_view(3, 2, Some('a'))),
        catalog_view(11) == descriptor_view("session_id"@, FormatScope::Session, DecodedType::Id, release_view(3, 2, Some('a'))),
        catalog_view(12) == descriptor_view("session_name"@, FormatScope::Session, DecodedType::Text, release_view(3, 2, Some('a'))),
        catalog_view(13) == descriptor_view("session_windows"@, FormatScope::Session, DecodedType::Unsigned, release_view(3, 2, Some('a'))),
        catalog_view(14) == descriptor_view("session_width"@, FormatScope::Session, DecodedType::Unsigned, release_view(3, 2, Some('a'))),
        catalog_view(15) == descriptor_view("session_height"@, FormatScope::Session, DecodedType::Unsigned, release_view(3, 2, Some('a'))),
        catalog_view(16) == descriptor_view("session_created"@, FormatScope::Session, DecodedType::Timestamp, release_view(3, 2, Some('a'))),
        catalog_view(17) == descriptor_view("session_created_string"@, FormatScope::Session, DecodedType::Text, release_view(3, 2, Some('a'))),
        catalog_view(18) == descriptor_view("session_attached"@, FormatScope::Session, DecodedType::Unsigned, release_view(3, 2, Some('a'))),
        catalog_view(19) == descriptor_view("session_activity"@, FormatScope::Session, DecodedType::Timestamp, release_view(3, 2, Some('a'))),
        catalog_view(20) == descriptor_view("session_alerts"@, FormatScope::Session, DecodedType::Text, release_view(3, 2, Some('a'))),
        catalog_view(21) == descriptor_view("session_attached_list"@, FormatScope::Session, DecodedType::Text, release_view(3, 2, Some('a'))),
        catalog_view(22) == descriptor_view("session_format"@, FormatScope::Session, DecodedType::Text, release_view(3, 2, Some('a'))),
        catalog_view(23) == descriptor_view("session_group"@, FormatScope::Session, DecodedType::Text, release_view(3, 2, Some('a'))),
        catalog_view(24) == descriptor_view("session_group_attached"@, FormatScope::Session, DecodedType::Unsigned, release_view(3, 2, Some('a'))),
        catalog_view(25) == descriptor_view("session_group_attached_list"@, FormatScope::Session, DecodedType::Text, release_view(3, 2, Some('a'))),
        catalog_view(26) == descriptor_view("session_group_list"@, FormatScope::Session, DecodedType::Text, release_view(3, 2, Some('a'))),
        catalog_view(27) == descriptor_view("session_group_many_attached"@, FormatScope::Session, DecodedType::Bool, release_view(3, 2, Some('a'))),
        catalog_view(28) == descriptor_view("session_group_size"@, FormatScope::Session, DecodedType::Unsigned, release_view(3, 2, Some('a'))),
        catalog_view(29) == descriptor_view("session_grouped"@, FormatScope::Session, DecodedType::Bool, release_view(3, 2, Some('a'))),
        catalog_view(30) == descriptor_view("session_last_attached"@, FormatScope::Session, DecodedType::Timestamp, release_view(3, 2, Some('a'))),
        catalog_view(31) == descriptor_view("session_many_attached"@, FormatScope::Session, DecodedType::Bool, release_view(3, 2, Some('a'))),
{
    reveal(catalog_view);
}

/// Catalog entries 32 to 63: each token with the context that supplies
/// it, the type it decodes to and the first tmux release that has it.
#[verifier::spinoff_prover]
pub proof fn law_catalog_rows_32_to_63()
    ensures
        catalog_view(32) == descriptor_view("session_marked"@, FormatScope::Session, DecodedType::Bool, release_view(3, 2, Some('a'))),
        catalog_view(33) == descriptor_view("session_path"@, FormatScope::Session, DecodedType::Text, release_view(3, 2, Some('a'))),
        catalog_view(34) == descriptor_view("session_stack"@, FormatScope::Session, DecodedType::Text, release_view(3, 2, Some('a'))),
        catalog_view(35) == descriptor_view("active_window_index"@, FormatScope::Session, DecodedType::Unsigned, release_view(3, 2, Some('a'))),
        catalog_view(36) == descriptor_view("last_window_index"@, FormatScope::Session, DecodedType::Unsigned, release_view(3, 2, Some('a'))),
        catalog_view(37) == descriptor_view("window_id"@, FormatScope::Window, DecodedType::Id, release_view(3, 2, Some('a'))),
        catalog_view(38) == descriptor_view("window_index"@, FormatScope::Window, DecodedType::Unsigned, release_view(3, 2, Some('a'))),
        catalog_view(39) == descriptor_view("window_name"@, FormatScope::Window, DecodedType::Text, release_view(3, 2, Some('a'))),
        catalog_view(40) == descriptor_view("window_width"@, FormatScope::Window, DecodedType::Unsigned, release_view(3, 2, Some('a'))),
        catalog_view(41) == descriptor_view("window_height"@, FormatScope::Window, DecodedType::Unsigned, release_view(3, 2, Some('a'))),
        catalog_view(42) == descriptor_view("window_layout"@, FormatScope::Window, DecodedType::Text, release_view(3, 2, Some('a'))),
        catalog_view(43) == descriptor_view("window_visible_layout"@, FormatScope::Window, DecodedType::Text, release_view(3, 2, Some('a'))),
        catalog_view(44) == descriptor_view("window_panes"@, FormatScope::Window, DecodedType::Unsigned, release_view(3, 2, Some('a'))),
        catalog_view(45) == descriptor_view("window_flags"@, FormatScope::Window, DecodedType::Text, release_view(3, 2, Some('a'))),
        catalog_view(46) == descriptor_view("window_active"@, FormatScope::Window, DecodedType::Bool, release_view(3, 2, Some('a'))),
        catalog_view(47) == descriptor_view("window_bell_flag"@, FormatScope::Window, DecodedType::Bool, release_view(3, 2, Some('a'))),
        catalog_view(48) == descriptor_view("window_activity_flag"@, FormatScope::Window, DecodedType::Bool, release_view(3, 2, Some('a'))),
        catalog_view(49) == descriptor_view("window_silence_flag"@, FormatScope::Window, DecodedType::Bool, release_view(3, 2, Some('a'))),
        catalog_view(50) == descriptor_view("window_zoomed_flag"@, FormatScope::Window, DecodedType::Bool, release_view(3, 2, Some('a'))),
        catalog_view(51) == descriptor_view("window_active_clients"@, FormatScope::Window, DecodedType::Unsigned, release_view(3, 2, Some('a'))),
        catalog_view(52) == descriptor_view("window_active_clients_list"@, FormatScope::Window, DecodedType::Text, release_view(3, 2, Some('a'))),
        catalog_view(53) == descriptor_view("window_active_sessions"@, FormatScope::Window, DecodedType::Unsigned, release_view(3, 2, Some('a'))),
        catalog_view(54) == descriptor_view("window_active_sessions_list"@, FormatScope::Window, DecodedType::Text, release_view(3, 2, Some('a'))),
        catalog_view(55) == descriptor_view("window_activity"@, FormatScope::Window, DecodedType::Timestamp, release_view(3, 2, Some('a'))),
        catalog_view(56) == descriptor_view("window_bigger"@, FormatScope::Window, DecodedType::Bool, release_view(3, 2, Some('a'))),
        catalog_view(57) == descriptor_view("window_cell_height"@, FormatScope::Window, DecodedType::Unsigned, release_view(3, 2, Some('a'))),
        catalog_view(58) == descriptor_view("window_cell_width"@, FormatScope::Window, DecodedType::Unsigned, release_view(3, 2, Some('a'))),
        catalog_view(59) == descriptor_view("window_end_flag"@, FormatScope::Window, DecodedType::Bool, release_view(3, 2, Some('a'))),
        catalog_view(60) == descriptor_view("window_format"@, FormatScope::Window, DecodedType::Text, release_view(3, 2, Some('a'))),
        catalog_view(61) == descriptor_view("window_last_flag"@, FormatScope::Window, DecodedType::Bool, release_view(3, 2, Some('a'))),
        catalog_view(62) == descriptor_view("window_linked"@, FormatScope::Window, DecodedType::Bool, release_view(3, 2, Some('a'))),
        catalog_view(63) == descriptor_view("window_linked_sessions"@, FormatScope::Window, DecodedType::Unsigned, release_view(3, 2, Some('a'))),
{
    reveal(catalog_view);
}

/// Catalog entries 64 to 95: each token with the context that supplies
/// it, the type it decodes to and the first tmux release that has it.
#[verifier::spinoff_prover]
pub proof fn law_catalog_rows_64_to_95()
    ensures
        catalog_view(64) == descriptor_view("window_linked_sessions_list"@, FormatScope::Window, DecodedType::Text, release_view(3, 2, Some('a'))),
        catalog_view(65) == descriptor_view("window_marked_flag"@, FormatScope::Window, DecodedType::Bool, release_view(3, 2, Some('a'))),
        catalog_view(66) == descriptor_view("window_offset_x"@, FormatScope::Window, DecodedType::Signed, release_view(3, 2, Some('a'))),
        catalog_view(67) == descriptor_view("window_offset_y"@, FormatScope::Window, DecodedType::Signed, release_view(3, 2, Some('a'))),
        catalog_view(68) == descriptor_view("window_raw_flags"@, FormatScope::Window, DecodedType::Text, release_view(3, 2, Some('a'))),
        catalog_view(69) == descriptor_view("window_stack_index"@, FormatScope::Window, DecodedType::Unsigned, release_view(3, 2, Some('a'))),
        catalog_view(70) == descriptor_view("window_start_flag"@, FormatScope::Window, DecodedType::Bool, release_view(3, 2, Some('a'))),
        catalog_view(71) == descriptor_view("pane_id"@, FormatScope::Pane, DecodedType::Id, release_view(3, 2, Some('a'))),
        catalog_view(72) == descriptor_view("pane_index"@, FormatScope::Pane, DecodedType::Unsigned, release_view(3, 2, Some('a'))),
        catalog_view(73) == descriptor_view("pane_width"@, FormatScope::Pane, DecodedType::Unsigned, release_view(3, 2, Some('a'))),
        catalog_view(74) == descriptor_view("pane_height"@, FormatScope::Pane, DecodedType::Unsigned, release_view(3, 2, Some('a'))),
        catalog_view(75) == descriptor_view("pane_title"@, FormatScope::Pane, DecodedType::Text, release_view(3, 2, Some('a'))),
        catalog_view(76) == descriptor_view("pane_active"@, FormatScope::Pane, DecodedType::Bool, release_view(3, 2, Some('a'))),
        catalog_view(77) == descriptor_view("pane_dead"@, FormatScope::Pane, DecodedType::Bool, release_view(3, 2, Some('a'))),
        catalog_view(78) == descriptor_view("pane_dead_status"@, FormatScope::Pane, DecodedType::Signed, release_view(3, 2, Some('a'))),
        catalog_view(79) == descriptor_view("pane_dead_signal"@, FormatScope::Pane, DecodedType::Signed, release_view(3, 3, None)),
        catalog_view(80) == descriptor_view("pane_dead_time"@, FormatScope::Pane, DecodedType::Timestamp, release_view(3, 3, None)),
        catalog_view(81) == descriptor_view("pane_in_mode"@, FormatScope::Pane, DecodedType::Bool, release_view(3, 2, Some('a'))),
        catalog_view(82) == descriptor_view("pane_synchronized"@, FormatScope::Pane, DecodedType::Bool, release_view(3, 2, Some('a'))),
        catalog_view(83) == descriptor_view("pane_tty"@, FormatScope::Pane, DecodedType::Text, release_view(3, 2, Some('a'))),
        catalog_view(84) == descriptor_view("pane_pid"@, FormatScope::Pane, DecodedType::Unsigned, release_view(3, 2, Some('a'))),
        catalog_view(85) == descriptor_view("pane_start_command"@, FormatScope::Pane, DecodedType::Text, release_view(3, 2, Some('a'))),
        catalog_view(86) == descriptor_view("pane_start_path"@, FormatScope::Pane, DecodedType::Text, release_view(3, 2, Some('a'))),
        catalog_view(87) == descriptor_view("pane_current_path"@, FormatScope::Pane, DecodedType::Text, release_view(3, 2, Some('a'))),
        catalog_view(88) == descriptor_view("pane_current_command"@, FormatScope::Pane, DecodedType::Text, release_view(3, 2, Some('a'))),
        catalog_view(89) == descriptor_view("pane_input_off"@, FormatScope::Pane, DecodedType::Bool, release_view(3, 2, Some('a'))),
        catalog_view(90) == descriptor_view("pane_unseen_changes"@, FormatScope::Pane, DecodedType::Bool, release_view(3, 2, Some('a'))),
        catalog_view(91) == descriptor_view("pane_at_left"@, FormatScope::Pane, DecodedType::Bool, release_view(3, 2, Some('a'))),
        catalog_view(92) == descriptor_view("pane_at_right"@, FormatScope::Pane, DecodedType::Bool, release_view(3, 2, Some('a'))),
        catalog_view(93) == descriptor_view("pane_at_top"@, FormatScope::Pane, DecodedType::Bool, release_view(3, 2, Some('a'))),
        catalog_view(94) == descriptor_view("pane_at_bottom"@, FormatScope::Pane, DecodedType::Bool, release_view(3, 2, Some('a'))),
        catalog_view(95) == descriptor_view("history_size"@, FormatScope::Pane, DecodedType::Unsigned, release_view(3, 2, Some('a'))),
{
    reveal(catalog_view);
}

/// Catalog entries 96 to 127: each token with the context that supplies
/// it, the type it decodes to and the first tmux release that has it.
#[verifier::spinoff_prover]
pub proof fn law_catalog_rows_96_to_127()
    ensures
        catalog_view(96) == descriptor_view("history_limit"@, FormatScope::Pane, DecodedType::Unsigned, release_view(3, 2, Some('a'))),
        catalog_view(97) == descriptor_view("history_bytes"@, FormatScope::Pane, DecodedType::Unsigned, release_view(3, 2, Some('a'))),
        catalog_view(98) == descriptor_view("alternate_saved_x"@, FormatScope::Pane, DecodedType::Unsigned, release_view(3, 2, Some('a'))),
        catalog_view(99) == descriptor_view("alternate_saved_y"@, FormatScope::Pane, DecodedType::Unsigned, release_view(3, 2, Some('a'))),
        catalog_view(100) == descriptor_view("cursor_x"@, FormatScope::Pane, DecodedType::Unsigned, release_view(3, 2, Some('a'))),
        catalog_view(101) == descriptor_view("cursor_y"@, FormatScope::Pane, DecodedType::Unsigned, release_view(3, 2, Some('a'))),
        catalog_view(102) == descriptor_view("scroll_region_upper"@, FormatScope::Pane, DecodedType::Unsigned, release_view(3, 2, Some('a'))),
        catalog_view(103) == descriptor_view("scroll_region_lower"@, FormatScope::Pane, DecodedType::Unsigned, release_view(3, 2, Some('a'))),
        catalog_view(104) == descriptor_view("alternate_on"@, FormatScope::Pane, DecodedType::Bool, release_view(3, 2, Some('a'))),
        catalog_view(105) == descriptor_view("cursor_flag"@, FormatScope::Pane, DecodedType::Bool, release_view(3, 2, Some('a'))),
        catalog_view(106) == descriptor_view("insert_flag"@, FormatScope::Pane, DecodedType::Bool, release_view(3, 2, Some('a'))),
        catalog_view(107) == descriptor_view("keypad_cursor_flag"@, FormatScope::Pane, DecodedType::Bool, release_view(3, 2, Some('a'))),
        catalog_view(108) == descriptor_view("keypad_flag"@, FormatScope::Pane, DecodedType::Bool, release_view(3, 2, Some('a'))),
        catalog_view(109) == descriptor_view("wrap_flag"@, FormatScope::Pane, DecodedType::Bool, release_view(3, 2, Some('a'))),
        catalog_view(110) == descriptor_view("mouse_standard_flag"@, FormatScope::Pane, DecodedType::Bool, release_view(3, 2, Some('a'))),
        catalog_view(111) == descriptor_view("mouse_button_flag"@, FormatScope::Pane, DecodedType::Bool, release_view(3, 2, Some('a'))),
        catalog_view(112) == descriptor_view("mouse_any_flag"@, FormatScope::Pane, DecodedType::Bool, release_view(3, 2, Some('a'))),
        catalog_view(113) == descriptor_view("mouse_utf8_flag"@, FormatScope::Pane, DecodedType::Bool, release_view(3, 2, Some('a'))),
        catalog_view(114) == descriptor_view("cursor_character"@, FormatScope::Pane, DecodedType::Text, release_view(3, 2, Some('a'))),
        catalog_view(115) == descriptor_view("mouse_all_flag"@, FormatScope::Pane, DecodedType::Bool, release_view(3, 2, Some('a'))),
        catalog_view(116) == descriptor_view("mouse_sgr_flag"@, FormatScope::Pane, DecodedType::Bool, release_view(3, 2, Some('a'))),
        catalog_view(117) == descriptor_view("origin_flag"@, FormatScope::Pane, DecodedType::Bool, release_view(3, 2, Some('a'))),
        catalog_view(118) == descriptor_view("pane_bg"@, FormatScope::Pane, DecodedType::Text, release_view(3, 2, Some('a'))),
        catalog_view(119) == descriptor_view("pane_bottom"@, FormatScope::Pane, DecodedType::Signed, release_view(3, 2, Some('a'))),
        catalog_view(120) == descriptor_view("pane_fg"@, FormatScope::Pane, DecodedType::Text, release_view(3, 2, Some('a'))),
        catalog_view(121) == descriptor_view("pane_format"@, FormatScope::Pane, DecodedType::Text, release_view(3, 2, Some('a'))),
        catalog_view(122) == descriptor_view("pane_last"@, FormatScope::Pane, DecodedType::Bool, release_view(3, 2, Some('a'))),
        catalog_view(123) == descriptor_view("pane_left"@, FormatScope::Pane, DecodedType::Signed, release_view(3, 2, Some('a'))),
        catalog_view(124) == descriptor_view("pane_marked"@, FormatScope::Pane, DecodedType::Bool, release_view(3, 2, Some('a'))),
        catalog_view(125) == descriptor_view("pane_marked_set"@, FormatScope::Pane, DecodedType::Bool, release_view(3, 2, Some('a'))),
        catalog_view(126) == descriptor_view("pane_mode"@, FormatScope::Pane, DecodedType::Text, release_view(3, 2, Some('a'))),
        catalog_view(127) == descriptor_view("pane_path"@, FormatScope::Pane, DecodedType::Text, release_view(3, 2, Some('a'))),
{
    reveal(catalog_view);
}

/// Catalog entries 128 to 159: each token with the context that supplies
/// it, the type it decodes to and the first tmux release that has it.
#[verifier::spinoff_prover]
pub proof fn law_catalog_rows_128_to_159()
    ensures
        catalog_view(128) == descriptor_view("pane_pipe"@, FormatScope::Pane, DecodedType::Bool, release_view(3, 2, Some('a'))),
        catalog_view(129) == descriptor_view("pane_right"@, FormatScope::Pane, DecodedType::Signed, release_view(3, 2, Some('a'))),
        catalog_view(130) == descriptor_view("pane_search_string"@, FormatScope::Pane, DecodedType::Text, release_view(3, 2, Some('a'))),
        catalog_view(131) == descriptor_view("pane_tabs"@, FormatScope::Pane, DecodedType::Text, release_view(3, 2, Some('a'))),
        catalog_view(132) == descriptor_view("pane_top"@, FormatScope::Pane, DecodedType::Signed, release_view(3, 2, Some('a'))),
        catalog_view(133) == descriptor_view("pane_flags"@, FormatScope::Pane, DecodedType::Text, release_view(3, 7, None)),
        catalog_view(134) == descriptor_view("pane_floating_flag"@, FormatScope::Pane, DecodedType::Bool, release_view(3, 7, None)),
        catalog_view(135) == descriptor_view("pane_x"@, FormatScope::Pane, DecodedType::Signed, release_view(3, 7, None)),
        catalog_view(136) == descriptor_view("pane_y"@, FormatScope::Pane, DecodedType::Signed, release_view(3, 7, None)),
        catalog_view(137) == descriptor_view("pane_z"@, FormatScope::Pane, DecodedType::Signed, release_view(3, 7, None)),
        catalog_view(138) == descriptor_view("pane_zoomed_flag"@, FormatScope::Pane, DecodedType::Bool, release_view(3, 7, None)),
        catalog_view(139) == descriptor_view("pane_pb_progress"@, FormatScope::Pane, DecodedType::Unsigned, release_view(3, 7, None)),
        catalog_view(140) == descriptor_view("pane_pb_state"@, FormatScope::Pane, DecodedType::Text, release_view(3, 7, None)),
        catalog_view(141) == descriptor_view("pane_pipe_pid"@, FormatScope::Pane, DecodedType::Unsigned, release_view(3, 7, None)),
        catalog_view(142) == descriptor_view("bracket_paste_flag"@, FormatScope::Pane, DecodedType::Bool, release_view(3, 7, None)),
        catalog_view(143) == descriptor_view("synchronized_output_flag"@, FormatScope::Pane, DecodedType::Bool, release_view(3, 7, None)),
        catalog_view(144) == descriptor_view("client_name"@, FormatScope::Client, DecodedType::Text, release_view(3, 2, Some('a'))),
        catalog_view(145) == descriptor_view("client_tty"@, FormatScope::Client, DecodedType::Text, release_view(3, 2, Some('a'))),
        catalog_view(146) == descriptor_view("client_termname"@, FormatScope::Client, DecodedType::Text, release_view(3, 2, Some('a'))),
        catalog_view(147) == descriptor_view("client_session"@, FormatScope::Client, DecodedType::Text, release_view(3, 2, Some('a'))),
        catalog_view(148) == descriptor_view("client_last_session"@, FormatScope::Client, DecodedType::Text, release_view(3, 2, Some('a'))),
        catalog_view(149) == descriptor_view("client_created"@, FormatScope::Client, DecodedType::Timestamp, release_view(3, 2, Some('a'))),
        catalog_view(150) == descriptor_view("client_activity"@, FormatScope::Client, DecodedType::Timestamp, release_view(3, 2, Some('a'))),
        catalog_view(151) == descriptor_view("client_width"@, FormatScope::Client, DecodedType::Unsigned, release_view(3, 2, Some('a'))),
        catalog_view(152) == descriptor_view("client_height"@, FormatScope::Client, DecodedType::Unsigned, release_view(3, 2, Some('a'))),
        catalog_view(153) == descriptor_view("client_pid"@, FormatScope::Client, DecodedType::Unsigned, release_view(3, 2, Some('a'))),
        catalog_view(154) == descriptor_view("client_prefix"@, FormatScope::Client, DecodedType::Bool, release_view(3, 2, Some('a'))),
        catalog_view(155) == descriptor_view("client_utf8"@, FormatScope::Client, DecodedType::Bool, release_view(3, 2, Some('a'))),
        catalog_view(156) == descriptor_view("client_readonly"@, FormatScope::Client, DecodedType::Bool, release_view(3, 2, Some('a'))),
        catalog_view(157) == descriptor_view("client_control_mode"@, FormatScope::Client, DecodedType::Bool, release_view(3, 2, Some('a'))),
        catalog_view(158) == descriptor_view("client_flags"@, FormatScope::Client, DecodedType::Text, release_view(3, 2, Some('a'))),
        catalog_view(159) == descriptor_view("client_cell_height"@, FormatScope::Client, DecodedType::Unsigned, release_view(3, 2, Some('a'))),
{
    reveal(catalog_view);
}

/// Catalog entries 160 to 185: each token with the context that supplies
/// it, the type it decodes to and the first tmux release that has it.
#[verifier::spinoff_prover]
pub proof fn law_catalog_rows_160_to_185()
    ensures
        catalog_view(160) == descriptor_view("client_cell_width"@, FormatScope::Client, DecodedType::Unsigned, release_view(3, 2, Some('a'))),
        catalog_view(161) == descriptor_view("client_discarded"@, FormatScope::Client, DecodedType::Unsigned, release_view(3, 2, Some('a'))),
        catalog_view(162) == descriptor_view("client_key_table"@, FormatScope::Client, DecodedType::Text, release_view(3, 2, Some('a'))),
        catalog_view(163) == descriptor_view("client_mode_format"@, FormatScope::Client, DecodedType::Text, release_view(3, 2, Some('a'))),
        catalog_view(164) == descriptor_view("client_termfeatures"@, FormatScope::Client, DecodedType::Text, release_view(3, 2, Some('a'))),
        catalog_view(165) == descriptor_view("client_termtype"@, FormatScope::Client, DecodedType::Text, release_view(3, 2, Some('a'))),
        catalog_view(166) == descriptor_view("client_uid"@, FormatScope::Client, DecodedType::Unsigned, release_view(3, 2, Some('a'))),
        catalog_view(167) == descriptor_view("client_user"@, FormatScope::Client, DecodedType::Text, release_view(3, 2, Some('a'))),
        catalog_view(168) == descriptor_view("client_written"@, FormatScope::Client, DecodedType::Unsigned, release_view(3, 2, Some('a'))),
        catalog_view(169) == descriptor_view("buffer_name"@, FormatScope::Buffer, DecodedType::Text, release_view(3, 2, Some('a'))),
        catalog_view(170) == descriptor_view("buffer_size"@, FormatScope::Buffer, DecodedType::Unsigned, release_view(3, 2, Some('a'))),
        catalog_view(171) == descriptor_view("buffer_sample"@, FormatScope::Buffer, DecodedType::Text, release_view(3, 2, Some('a'))),
        catalog_view(172) == descriptor_view("copy_cursor_line"@, FormatScope::Event, DecodedType::Unsigned, release_view(3, 2, Some('a'))),
        catalog_view(173) == descriptor_view("copy_cursor_word"@, FormatScope::Event, DecodedType::Text, release_view(3, 2, Some('a'))),
        catalog_view(174) == descriptor_view("copy_cursor_x"@, FormatScope::Event, DecodedType::Unsigned, release_view(3, 2, Some('a'))),
        catalog_view(175) == descriptor_view("copy_cursor_y"@, FormatScope::Event, DecodedType::Unsigned, release_view(3, 2, Some('a'))),
        catalog_view(176) == descriptor_view("scroll_position"@, FormatScope::Event, DecodedType::Signed, release_view(3, 2, Some('a'))),
        catalog_view(177) == descriptor_view("selection_end_x"@, FormatScope::Event, DecodedType::Signed, release_view(3, 2, Some('a'))),
        catalog_view(178) == descriptor_view("selection_end_y"@, FormatScope::Event, DecodedType::Signed, release_view(3, 2, Some('a'))),
        catalog_view(179) == descriptor_view("selection_start_x"@, FormatScope::Event, DecodedType::Signed, release_view(3, 2, Some('a'))),
        catalog_view(180) == descriptor_view("selection_start_y"@, FormatScope::Event, DecodedType::Signed, release_view(3, 2, Some('a'))),
        catalog_view(181) == descriptor_view("command_list_alias"@, FormatScope::Context, DecodedType::Text, release_view(3, 2, Some('a'))),
        catalog_view(182) == descriptor_view("command_list_name"@, FormatScope::Context, DecodedType::Text, release_view(3, 2, Some('a'))),
        catalog_view(183) == descriptor_view("command_list_usage"@, FormatScope::Context, DecodedType::Text, release_view(3, 2, Some('a'))),
        catalog_view(184) == descriptor_view("current_file"@, FormatScope::Context, DecodedType::Text, release_view(3, 2, Some('a'))),
        catalog_view(185) == descriptor_view("search_match"@, FormatScope::Context, DecodedType::Text, release_view(3, 2, Some('a'))),
{
    reveal(catalog_view);
}

/// A listing requests a catalog entry exactly when the entry belongs to one
/// of the listed scopes and the connected version supplies it; so, for one,
/// every pane listing on tmux 3.2a or later requests `pane_current_path`.
pub proof fn law_listing_requests(i: int, scopes: Seq<FormatScope>, version: crate::version::TmuxVersionView)
    requires
        0 <= i < CATALOG_LEN,
    ensures
        catalog().filter(listed(scopes, version)).contains(catalog_view(i as usize))
            <==> (scopes.contains(catalog_view(i as usize).scope) && meets_spec(version, catalog_view(i as usize).minimum)),
        i == 87 && meets_spec(version, release_view(3, 2, Some('a'))) && scopes.contains(FormatScope::Pane)
            ==> catalog().filter(listed(scopes, version)).contains(
                descriptor_view("pane_current_path"@, FormatScope::Pane, DecodedType::Text, release_view(3, 2, Some('a')))),
{
    let pred = listed(scopes, version);
    let c = catalog();
    assert(c[i] == catalog_view(i as usize));
    if pred(c[i]) {
        c.lemma_filter_contains(pred, i);
    }
    if c.filter(pred).contains(c[i]) {
        let k = choose|k: int| 0 <= k < c.filter(pred).len() && c.filter(pred)[k] == c[i];
        c.lemma_filter_pred(pred, k);
    }
    law_catalog_rows_64_to_95();
}

} // verus!
