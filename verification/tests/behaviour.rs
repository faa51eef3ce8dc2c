use tmux_client::advanced::{check_delay, DisplayMessage, RunShell};
use tmux_client::buffer::{
    find_buffer, list_buffers_command, most_recent_buffer, resulting_buffer, set_buffer_command, BufferEntry, BufferName,
};
use tmux_client::command::{Command, CommandResult, CommandSummary};
use tmux_client::discovery::{attached_indices, cleanup_outcome, matching_ids, matching_names};
use tmux_client::error::{Error, ObjectKind};
use tmux_client::formats::{fields_for_listing, format_catalog, format_descriptor, parse_rows, FormatScope, FORMAT_SEPARATOR};
use tmux_client::options::{OptionMap, OptionValue};
use tmux_client::query::{fold_case, text_matches, Pattern, TextComparison};
use tmux_client::server::{alive_outcome, check_timeout, kill_server_outcome, single_match};
use tmux_client::strmap::StrMap;
use tmux_client::target::{PaneId, SessionId, SessionName};
use tmux_client::text::TmuxText;
use tmux_client::pane::{
    send_keys_check, send_keys_commands, PaneDestination, RelocatePane, ResizeDirection, SendKeys, SwapPane, SwapPaneDirection,
};
use tmux_client::retry::{retry_durations, retry_next, retry_timeout_error, RetryAction};
use tmux_client::window::WindowResize;
use tmux_client::version::{gate, ReleaseVersion, TmuxVersion};

fn texts(command: &Command) -> Vec<Vec<u8>> {
    command.arguments().into_iter().map(TmuxText::into_bytes).collect()
}

fn result(code: i32, stdout: &str, stderr: &str) -> CommandResult {
    CommandResult::new(
        Some(code),
        stdout.as_bytes().to_vec(),
        stderr.as_bytes().to_vec(),
        CommandSummary::from_string("list-sessions".to_owned()),
    )
}

#[test]
fn listing_rows_pair_tokens_with_values() {
    let Ok(version) = TmuxVersion::parse("3.2a") else {
        panic!("version parses");
    };
    let fields = fields_for_listing(&[FormatScope::Session], &version);
    let fields = &fields[..2];
    let output = format!("$1{FORMAT_SEPARATOR}two words\n\n$2{FORMAT_SEPARATOR}\n");
    let rows = parse_rows(output.as_bytes(), fields).expect("rows parse");
    assert_eq!(rows.len(), 2);
    let first = fields[0].token();
    let second = fields[1].token();
    assert_eq!(rows[0].get(first).map(TmuxText::as_bytes), Some(b"$1".as_slice()));
    assert_eq!(rows[0].get(second).map(TmuxText::as_bytes), Some(b"two words".as_slice()));
    assert_eq!(rows[1].get(second).map(TmuxText::as_bytes), Some(b"".as_slice()));
}

#[test]
fn row_with_wrong_field_count_reports_both_counts() {
    let Ok(version) = TmuxVersion::parse("3.2a") else {
        panic!("version parses");
    };
    let fields = fields_for_listing(&[FormatScope::Session], &version);
    match parse_rows(b"only-one-field\n", &fields[..2]) {
        Err(Error::Decode { context, message }) => {
            assert_eq!(context, "tmux format row");
            assert_eq!(message, "expected 2 fields, received 1");
        }
        other => panic!("unexpected {other:?}"),
    }
}

#[test]
fn option_values_keep_every_space_after_the_first() {
    let options = OptionMap::parse(b"status-right  two  spaces \n").expect("options parse");
    assert_eq!(
        options
            .get("status-right")
            .and_then(OptionValue::as_text)
            .map(TmuxText::as_bytes),
        Some(b" two  spaces ".as_slice())
    );
}

#[test]
fn summaries_do_not_depend_on_secret_values() {
    let a = Command::new("set-option").arg("-g").sensitive_arg("first").sensitive_input("one");
    let b = Command::new("set-option").arg("-g").sensitive_arg("second").sensitive_input("two");
    assert_eq!(a.summary().as_str(), b.summary().as_str());
    assert_eq!(a.summary().as_str(), "set-option -g <redacted> <stdin:redacted>");
    let plain = Command::new("show-options").arg("-g").input("visible");
    assert_eq!(plain.summary().as_str(), "show-options -g <stdin>");
}

#[test]
fn releases_order_by_major_minor_then_suffix() {
    let a = ReleaseVersion::new(3, 2, None);
    let b = ReleaseVersion::new(3, 2, Some('a'));
    let c = ReleaseVersion::new(3, 3, None);
    let d = ReleaseVersion::new(4, 0, None);
    assert!(a < b && b < c && c < d);
    assert!(!(b < b));
    assert!(a < d);
}

#[test]
fn release_text_round_trips() {
    let v = ReleaseVersion::new(3, 7, Some('b'));
    assert_eq!(v.to_string(), "3.7b");
    assert_eq!(ReleaseVersion::from_str(&v.to_string()).ok(), Some(v));
    assert!(ReleaseVersion::from_str("3.7B").is_err());
    assert!(ReleaseVersion::from_str("37").is_err());
}

#[test]
fn capability_checks_are_monotone_and_development_meets_all() {
    let found = TmuxVersion::parse("tmux 3.4").expect("release parses");
    assert!(found.meets(ReleaseVersion::new(3, 2, Some('a'))));
    assert!(found.meets(ReleaseVersion::new(3, 4, None)));
    assert!(!found.meets(ReleaseVersion::new(3, 5, None)));
    let master = TmuxVersion::parse("tmux master").expect("development parses");
    assert!(master.meets(ReleaseVersion::new(9, 9, None)));
    let next = TmuxVersion::parse("next-3.6").expect("development parses");
    assert!(matches!(next, TmuxVersion::Development(_)));
}

#[test]
fn unavailable_capabilities_are_unsupported_errors() {
    let found = TmuxVersion::parse("3.2a").expect("release parses");
    assert!(gate(&found, false, "floating panes", 3, 7).is_ok());
    match gate(&found, true, "floating panes", 3, 7) {
        Err(Error::Unsupported { capability, required, .. }) => {
            assert_eq!(capability, "floating panes");
            assert_eq!(required, ReleaseVersion::new(3, 7, None));
        }
        other => panic!("unexpected {other:?}"),
    }
    assert!(matches!(
        found.require("pane flags", ReleaseVersion::new(3, 6, None)),
        Err(Error::Unsupported { .. })
    ));
}

#[test]
fn invalid_versions_are_rejected() {
    assert!(matches!(TmuxVersion::parse("tmux three"), Err(Error::InvalidVersion(_))));
}

#[test]
fn identities_reject_other_prefixes_and_leading_text() {
    assert!(matches!(SessionId::from_str("@4"), Err(Error::InvalidId { .. })));
    assert!(matches!(SessionId::from_str("$x"), Err(Error::InvalidId { .. })));
    assert_eq!(SessionId::from_str("$18446744073709551615").map(SessionId::get).ok(), Some(u64::MAX));
    assert!(SessionId::from_str("$18446744073709551616").is_err());
}

#[test]
fn session_names_accept_ordinary_text() {
    let name = SessionName::new("work").expect("valid name");
    assert_eq!(name.as_str(), "work");
    assert!(matches!(SessionName::new("a:b"), Err(Error::InvalidSessionName(_))));
}

#[test]
fn maps_keep_the_last_value_and_other_keys() {
    let mut map: StrMap<u32> = StrMap::new();
    assert_eq!(map.insert("b".to_owned(), 1), None);
    assert_eq!(map.insert("a".to_owned(), 2), None);
    assert_eq!(map.insert("b".to_owned(), 3), Some(1));
    assert_eq!(map.get("b"), Some(&3));
    assert_eq!(map.get("a"), Some(&2));
    assert_eq!(map.len(), 2);
    let keys: Vec<&str> = map.iter().iter().map(|(k, _)| k.as_str()).collect();
    assert_eq!(keys, vec!["a", "b"]);
}

#[test]
fn buffer_names_must_be_nonempty_without_nul() {
    assert!(matches!(
        BufferName::new(TmuxText::from_str("")),
        Err(Error::InvalidArgument { argument: "buffer name", .. })
    ));
    assert!(BufferName::new(TmuxText::new(vec![b'a', 0, b'b'])).is_err());
    let name = BufferName::new(TmuxText::new(vec![0xff, b'x'])).expect("bytes are a name");
    assert_eq!(name.as_text().as_bytes(), &[0xff, b'x']);
}

#[test]
fn set_buffer_moves_nul_data_to_standard_input() {
    let name = BufferName::new(TmuxText::from_str("clip")).expect("valid name");
    let plain = set_buffer_command(Some(&name), TmuxText::from_str("text"), true);
    assert_eq!(plain.subcommand().as_bytes(), b"set-buffer");
    assert_eq!(texts(&plain), vec![b"-a".to_vec(), b"-b".to_vec(), b"clip".to_vec(), b"text".to_vec()]);
    assert_eq!(plain.summary().as_str(), "set-buffer -a -b clip <redacted>");
    let binary = set_buffer_command(None, TmuxText::new(vec![b'a', 0]), false);
    assert_eq!(binary.subcommand().as_bytes(), b"load-buffer");
    assert_eq!(texts(&binary), vec![b"-".to_vec()]);
    assert_eq!(binary.standard_input().map(TmuxText::as_bytes), Some([b'a', 0].as_slice()));
}

#[test]
fn list_buffers_adds_format_then_filter() {
    let command = list_buffers_command(Some("#{buffer_name}"), None);
    assert_eq!(texts(&command), vec![b"-F".to_vec(), b"#{buffer_name}".to_vec()]);
}

fn entry(name: &str, size: &str) -> BufferEntry {
    let mut row: StrMap<TmuxText> = StrMap::new();
    row.insert("buffer_name".to_owned(), TmuxText::from_str(name));
    row.insert("buffer_size".to_owned(), TmuxText::from_str(size));
    BufferEntry::from_row(&row).expect("entry decodes")
}

#[test]
fn buffer_rows_decode_and_lookups_pick_exact_names() {
    let entries = vec![entry("b1", "3"), entry("b2", "10")];
    assert_eq!(entries[1].size(), 10);
    assert!(entries[0].sample().is_empty());
    let name = BufferName::new(TmuxText::from_str("b2")).expect("valid name");
    let found = find_buffer(entries, &name).expect("found");
    assert_eq!(found.size(), 10);
    let missing = BufferName::new(TmuxText::from_str("b3")).expect("valid name");
    match find_buffer(vec![entry("b1", "3")], &missing) {
        Err(Error::ObjectNotFound { kind: ObjectKind::Buffer, target }) => assert_eq!(target, "b3"),
        other => panic!("unexpected {other:?}"),
    }
    let mut row: StrMap<TmuxText> = StrMap::new();
    row.insert("buffer_name".to_owned(), TmuxText::from_str("x"));
    row.insert("buffer_size".to_owned(), TmuxText::from_str("-1"));
    assert!(matches!(BufferEntry::from_row(&row), Err(Error::Decode { context: "buffer size", .. })));
}

#[test]
fn single_matches_report_missing_and_ambiguous_lookups() {
    assert_eq!(single_match(vec![7], ObjectKind::Window, "@1".to_owned(), "q".to_owned()).ok(), Some(7));
    assert!(matches!(
        single_match(Vec::<u8>::new(), ObjectKind::Window, "@1".to_owned(), "q".to_owned()),
        Err(Error::ObjectNotFound { kind: ObjectKind::Window, .. })
    ));
    assert!(matches!(
        single_match(vec![1, 2], ObjectKind::Window, "@1".to_owned(), "q".to_owned()),
        Err(Error::MultipleObjects { count: 2, .. })
    ));
    assert_eq!(matching_ids(&[4, 5, 4], 4), vec![0, 2]);
}

#[test]
fn command_outcomes_follow_exit_status() {
    assert!(result(0, "", "").ensure_success("list").is_ok());
    assert!(matches!(result(1, "", "boom").ensure_success("list"), Err(Error::CommandFailed { .. })));
    assert!(alive_outcome(&result(0, "", "")).is_ok());
    match alive_outcome(&result(1, "", "no server running on /tmp/x")) {
        Err(Error::ServerUnavailable { message }) => assert_eq!(message, "no server running on /tmp/x"),
        other => panic!("unexpected {other:?}"),
    }
    assert!(kill_server_outcome(result(1, "", "no server running on /tmp/x")).is_ok());
    assert!(kill_server_outcome(result(1, "", "permission denied")).is_err());
    assert_eq!(result(0, "a\n\nb\n", "").stdout_lines().len(), 2);
}

#[test]
fn cleanup_failures_wrap_only_successful_operations() {
    let ok: Result<u8, Error> = Ok(1);
    assert_eq!(cleanup_outcome(ok, Ok(()), "with_session").ok(), Some(1));
    let wrapped = cleanup_outcome(Ok(1u8), Err(Error::NotInsideTmux), "with_session");
    assert!(matches!(wrapped, Err(Error::Cleanup { operation: "with_session", .. })));
    let first = cleanup_outcome::<u8>(Err(Error::NotInsideTmux), Err(Error::WaitTimeout { condition: "x".to_owned() }), "with_session");
    assert!(matches!(first, Err(Error::NotInsideTmux)));
}

#[test]
fn text_comparisons_nest_and_fold_case() {
    assert!(text_matches("alpha", "alpha", TextComparison::Exact, false));
    assert!(text_matches("alpha", "alp", TextComparison::StartsWith, false));
    assert!(text_matches("alpha", "pha", TextComparison::EndsWith, false));
    assert!(text_matches("alpha", "lph", TextComparison::Contains, false));
    assert!(text_matches("alpha", "", TextComparison::Contains, false));
    assert!(!text_matches("alpha", "ALP", TextComparison::StartsWith, false));
    assert!(text_matches("ÄLPHA", "älp", TextComparison::StartsWith, true));
    assert_eq!(fold_case("ÄB", true), "äb");
    assert_eq!(fold_case("ÄB", false), "ÄB");
    assert_eq!(TextComparison::EndsWith.keyword(), "ENDS WITH");
}

#[test]
fn regex_patterns_compile_or_report_invalid_arguments() {
    let pattern = Pattern::new("^b", false).expect("compiles");
    assert!(!pattern.is_match("abc"));
    assert!(pattern.is_match("bcd"));
    assert_eq!(pattern.source(), "^b");
    assert!(matches!(
        Pattern::new("(", false),
        Err(Error::InvalidArgument { argument: "regular expression", .. })
    ));
}

#[test]
fn lossy_text_replaces_invalid_bytes() {
    let text = TmuxText::new(vec![b'a', 0xff, b'b']);
    assert_eq!(text.to_string_lossy(), "a\u{FFFD}b");
    assert_eq!(TmuxText::from_str("ok").to_str().ok(), Some("ok"));
}

#[test]
fn positive_timeouts_are_accepted() {
    assert!(check_timeout(0, 1).is_ok());
    assert!(check_timeout(5, 0).is_ok());
    assert!(matches!(check_timeout(0, 0), Err(Error::InvalidArgument { argument: "timeout", .. })));
}

#[test]
fn indexed_options_split_at_the_last_bracket() {
    let options = tmux_client::options::SparseOptionMap::parse(b"a[b[2] x\nplain 1\n").expect("parses");
    let indexes = options.get("a[b").expect("base name keeps its bracket");
    assert_eq!(indexes.len(), 1);
    assert!(indexes.contains_key(&2));
    assert!(options.get("plain").is_none());
    assert!(tmux_client::options::SparseOptionMap::parse(b"hook[x] y\n").is_err());
}

#[test]
fn run_shell_delays_must_be_positive() {
    assert!(check_delay(0, 0).is_err());
    assert!(check_delay(0, 500).is_ok());
    assert!(RunShell::new(TmuxText::from_str("true")).background(true).is_background());
    assert!(!DisplayMessage::new().is_print());
    assert!(DisplayMessage::new().print(true).is_print());
}

fn session_row(id: &str, attached: &str) -> tmux_client::snapshot::SessionSnapshot {
    let mut row: StrMap<TmuxText> = StrMap::new();
    row.insert("session_id".to_owned(), TmuxText::from_str(id));
    row.insert("session_attached".to_owned(), TmuxText::from_str(attached));
    tmux_client::snapshot::SessionSnapshot::new(row)
}

#[test]
fn attached_sessions_are_those_with_clients() {
    let rows = vec![session_row("$1", "0"), session_row("$2", "2"), session_row("$3", ""), session_row("$4", "1")];
    assert_eq!(attached_indices(&rows).expect("counts decode"), vec![1, 3]);
    let bad = vec![session_row("$1", "1"), session_row("$2", "many")];
    assert!(matches!(attached_indices(&bad), Err(Error::Decode { .. })));
}

#[test]
fn name_matching_skips_absent_names() {
    let work = SessionName::new("work").expect("valid");
    let names = vec![None, Some(SessionName::new("play").expect("valid")), Some(work.clone())];
    assert_eq!(matching_names(&names, &work), vec![2]);
}

#[test]
fn most_recent_buffer_is_the_first_listed() {
    assert_eq!(most_recent_buffer(vec![entry("b9", "1"), entry("b8", "2")]).expect("present").size(), 1);
    assert!(matches!(most_recent_buffer(Vec::new()), Err(Error::ObjectNotFound { kind: ObjectKind::Buffer, .. })));
    let name = BufferName::new(TmuxText::from_str("b8")).expect("valid");
    assert_eq!(resulting_buffer(Some(&name), vec![entry("b9", "1"), entry("b8", "2")]).expect("found").size(), 2);
}

#[test]
fn send_keys_plans_keys_then_enter() {
    let version = TmuxVersion::parse("3.4").expect("release parses");
    let options = tmux_client::pane::SendKeys::new()
        .key(TmuxText::from_str("ls"))
        .enter(true)
        .suppress_history(true)
        .repeat(2)
        .expect("positive repeat");
    let commands = tmux_client::pane::send_keys_commands(tmux_client::target::PaneId::new(3), &options, Some(&version))
        .expect("valid options");
    assert_eq!(commands.len(), 2);
    assert_eq!(
        texts(&commands[0]),
        vec![b"-t".to_vec(), b"%3".to_vec(), b"-N".to_vec(), b"2".to_vec(), b" ".to_vec(), b"ls".to_vec()]
    );
    assert_eq!(texts(&commands[1]), vec![b"-t".to_vec(), b"%3".to_vec(), b"Enter".to_vec()]);
    let secret = tmux_client::pane::SendKeys::new().key(TmuxText::from_str("hunter2")).sensitive(true);
    let planned = tmux_client::pane::send_keys_commands(tmux_client::target::PaneId::new(3), &secret, Some(&version))
        .expect("valid options");
    assert_eq!(planned[0].summary().as_str(), "send-keys -t %3 <redacted>");
    let empty = tmux_client::pane::SendKeys::new();
    assert!(matches!(
        tmux_client::pane::send_keys_commands(tmux_client::target::PaneId::new(3), &empty, Some(&version)),
        Err(Error::InvalidArgument { argument: "send keys", .. })
    ));
}

#[test]
fn popups_order_flags_and_gate_styling() {
    let old = TmuxVersion::parse("3.2a").expect("release parses");
    let new = TmuxVersion::parse("3.6").expect("release parses");
    let popup = tmux_client::advanced::Popup::new()
        .close_on_success(true)
        .width(TmuxText::from_str("80%"))
        .title(TmuxText::from_str("t"));
    assert!(matches!(
        tmux_client::advanced::display_popup_command(tmux_client::target::PaneId::new(1), &popup, &old),
        Err(Error::Unsupported { .. })
    ));
    let command = tmux_client::advanced::display_popup_command(tmux_client::target::PaneId::new(1), &popup, &new)
        .expect("supported");
    assert_eq!(
        texts(&command),
        vec![
            b"-t".to_vec(),
            b"%1".to_vec(),
            b"-E".to_vec(),
            b"-E".to_vec(),
            b"-w".to_vec(),
            b"80%".to_vec(),
            b"-T".to_vec(),
            b"t".to_vec()
        ]
    );
    let both = tmux_client::advanced::Popup::new().close_on_exit(true).close_on_success(true);
    assert!(matches!(
        tmux_client::advanced::display_popup_command(tmux_client::target::PaneId::new(1), &both, &new),
        Err(Error::InvalidArgument { argument: "popup close behavior", .. })
    ));
}

#[test]
fn option_values_read_back_from_their_text() {
    let number = OptionValue::Text(OptionValue::Number(-42).to_os_string());
    assert_eq!(number.as_number().ok(), Some(Some(-42)));
    let flag = OptionValue::Text(OptionValue::Flag(false).to_os_string());
    assert_eq!(flag.as_flag(), Some(false));
    assert_eq!(OptionValue::Flag(true).to_os_string().as_bytes(), b"on");
}

#[test]
fn malformed_snapshot_ids_are_reported_without_the_raw_value() {
    let session = session_row("$x", "0");
    match session.id() {
        Err(Error::Decode { context, message }) => {
            assert_eq!(context, "snapshot typed field");
            assert_eq!(message, "session_id: invalid session ID");
            assert!(!message.contains("$x"));
        }
        other => panic!("unexpected result: {other:?}"),
    }
    assert_eq!(session_row("", "0").id().expect("empty id is absent"), None);
    assert_eq!(session_row("$7", "0").id().expect("id decodes"), Some(SessionId::new(7)));
}

#[test]
fn defaults_equal_fresh_values() {
    assert!(OptionMap::new() == OptionMap::default());
    assert!(OptionMap::default().is_empty());
    assert!(OptionMap::parse(b"").expect("empty output parses") == OptionMap::new());
    let sparse = tmux_client::options::SparseOptionMap::default();
    assert!(sparse.iter().is_empty());
    assert!(sparse.get("hook").is_none());
    assert!(tmux_client::options::SparseOptionMap::parse(b"status on\n").expect("parses").iter().is_empty());
    assert!(sparse == tmux_client::options::SparseOptionMap::new());
    assert!(tmux_client::options::SparseOptionMap::parse(b"status on\n").expect("parses") == sparse);
    let one = tmux_client::options::SparseOptionMap::parse(b"hook[1] a\nhook[2] b\n").expect("parses");
    let same = tmux_client::options::SparseOptionMap::parse(b"hook[2] b\nhook[1] a\n").expect("parses");
    let other = tmux_client::options::SparseOptionMap::parse(b"hook[1] a\nhook[2] c\n").expect("parses");
    assert!(one == same);
    assert!(one != other);
    assert!(one != sparse);
    let swap = tmux_client::pane::SwapPane::new();
    assert!(swap == tmux_client::pane::SwapPane::default());
    assert!(swap.clone().detached(false).keep_zoom(false) == swap);
    assert!(swap.clone().detached(true) != swap);
    assert!(tmux_client::window::WindowResize::new() == tmux_client::window::WindowResize::default());
    assert!(SendKeys::new() == SendKeys::default());
    assert!(SendKeys::new().key(TmuxText::from_str("a")) != SendKeys::new().key(TmuxText::from_str("b")));
    assert!(Command::new("list-sessions").arg("-a") == Command::new("list-sessions").arg("-a"));
    assert!(Command::new("list-sessions").arg("-a") != Command::new("list-sessions").arg("-b"));
    assert!(Command::new("list-sessions") != Command::new("list-windows"));
}

#[test]
fn swap_setters_keep_the_last_value_and_commute() {
    let s = SwapPane::new().keep_zoom(true);
    assert!(s.clone().destination(PaneId::new(1)).destination(PaneId::new(2)) == s.clone().destination(PaneId::new(2)));
    assert!(
        s.clone().direction(SwapPaneDirection::Up).direction(SwapPaneDirection::Down)
            == s.clone().direction(SwapPaneDirection::Down)
    );
    assert!(s.clone().detached(true).detached(false) == s.clone().detached(false));
    assert!(
        s.clone().destination(PaneId::new(4)).direction(SwapPaneDirection::Up)
            == s.clone().direction(SwapPaneDirection::Up).destination(PaneId::new(4))
    );
    assert!(
        s.clone().destination(PaneId::new(4)).detached(true) == s.clone().detached(true).destination(PaneId::new(4))
    );
    assert!(s.clone().detached(true).keep_zoom(false) == s.clone().keep_zoom(false).detached(true));
    assert!(
        SwapPane::new().destination(PaneId::new(4)).direction(SwapPaneDirection::Up)
            != SwapPane::new().direction(SwapPaneDirection::Up)
    );
}

#[test]
fn relocation_and_resize_hold_one_size_and_one_adjustment() {
    let r = RelocatePane::new(PaneDestination::Pane(PaneId::new(2)));
    let cells_then_percent = r.clone().cells(10).expect("cells").percent(40).expect("percent");
    assert!(cells_then_percent == r.clone().percent(40).expect("percent"));
    let percent_then_cells = r.clone().percent(40).expect("percent").cells(10).expect("cells");
    assert!(percent_then_cells == r.clone().cells(10).expect("cells"));
    assert!(matches!(
        r.clone().percent(0),
        Err(Error::InvalidArgument { argument: "relocated pane percentage", .. })
    ));
    assert!(matches!(
        r.clone().percent(101),
        Err(Error::InvalidArgument { argument: "relocated pane percentage", .. })
    ));
    let w = WindowResize::new().expand(true);
    let twice = w.clone().adjustment(ResizeDirection::Left, 3).expect("left").adjustment(ResizeDirection::Up, 5).expect("up");
    assert!(twice == w.clone().adjustment(ResizeDirection::Up, 5).expect("up"));
    assert!(matches!(
        w.clone().adjustment(ResizeDirection::Left, 0),
        Err(Error::InvalidArgument { argument: "window resize adjustment", .. })
    ));
}

#[test]
fn parsed_options_hold_one_entry_per_name() {
    let options = OptionMap::parse(b"status on\nhistory-limit 2000\nstatus off\n\n").expect("parses");
    assert_eq!(options.len(), 2);
    assert!(options.get("status") == Some(&OptionValue::Text(TmuxText::from_str("off"))));
    assert!(options.get("history-limit") == Some(&OptionValue::Text(TmuxText::from_str("2000"))));
    let names: Vec<&str> = options.iter().iter().map(|(name, _)| name.as_str()).collect();
    assert_eq!(names, vec!["history-limit", "status"]);
}

#[test]
fn parsed_sparse_options_hold_non_empty_index_maps() {
    let sparse = tmux_client::options::SparseOptionMap::parse(
        b"after-new-window[0] a\nstatus on\nafter-new-window[3] b\ncommand-alias[1] c\n",
    )
    .expect("parses");
    assert_eq!(sparse.iter().len(), 2);
    for (name, indexes) in sparse.iter() {
        assert!(!indexes.is_empty(), "{name} holds no index");
    }
    let hooks = sparse.get("after-new-window").expect("hook present");
    assert_eq!(hooks.keys().copied().collect::<Vec<u32>>(), vec![0, 3]);
    assert!(sparse.get("status").is_none());
}

#[test]
fn catalog_tokens_are_distinct_valid_and_found_again() {
    let catalog = format_catalog();
    let mut seen = std::collections::HashSet::new();
    for d in &catalog {
        let token = d.token();
        assert!(seen.insert(token), "{token} repeats");
        assert!(!token.is_empty());
        assert!(!token.contains('{') && !token.contains('}') && !token.contains(FORMAT_SEPARATOR));
        assert!(d.minimum_version() >= ReleaseVersion::minimum());
        assert!(format_descriptor(token) == Some(*d));
    }
    assert!(format_descriptor("no_such_token").is_none());
}

#[test]
fn retry_steps_finish_sleep_or_give_up() {
    assert!(retry_durations(5, 1).is_ok());
    assert!(matches!(retry_durations(0, 1), Err(Error::InvalidArgument { argument: "retry duration", .. })));
    assert!(matches!(retry_durations(5, 0), Err(Error::InvalidArgument { argument: "retry duration", .. })));
    assert_eq!(retry_next(true, 99, 10), RetryAction::Finish);
    assert_eq!(retry_next(false, 3, 10), RetryAction::Sleep);
    assert_eq!(retry_next(false, 10, 10), RetryAction::GiveUp);
    assert!(matches!(retry_timeout_error(), Error::WaitTimeout { .. }));
}

#[test]
fn send_keys_checks_arguments_before_asking_for_a_version() {
    assert!(matches!(send_keys_check(&SendKeys::new()), Err(Error::InvalidArgument { argument: "send keys", .. })));
    let plain = SendKeys::new().key(TmuxText::from_str("ls"));
    assert_eq!(send_keys_check(&plain).expect("valid"), false);
    let named = SendKeys::new().key(TmuxText::from_str("C-a")).key_name(true);
    assert_eq!(send_keys_check(&named).expect("valid"), true);
    let commands = send_keys_commands(PaneId::new(1), &plain, None).expect("no version needed");
    assert_eq!(commands.len(), 1);
    let old = TmuxVersion::parse("3.3").expect("release parses");
    assert!(matches!(send_keys_commands(PaneId::new(1), &named, Some(&old)), Err(Error::Unsupported { .. })));
}

#[test]
fn option_values_convert_from_strings() {
    assert!(OptionValue::from("on") == OptionValue::Text(TmuxText::from_str("on")));
    assert!(OptionValue::from("two words".to_owned()) == OptionValue::Text(TmuxText::from_str("two words")));
    let value: OptionValue = "x".into();
    assert!(value == OptionValue::Text(TmuxText::from_str("x")));
}

#[test]
fn command_summaries_read_as_strings() {
    let command = Command::new("set-environment").arg("TOKEN").sensitive_arg("secret");
    assert_eq!(command.summary().to_string(), "set-environment TOKEN <redacted>");
    assert_eq!(command.summary().to_string(), command.summary().as_str());
}

#[test]
fn clearing_history_needs_a_version_only_for_hyperlinks() {
    let plain = tmux_client::pane::clear_history_command(PaneId::new(2), false, None).expect("no version needed");
    assert_eq!(texts(&plain), vec![b"-t".to_vec(), b"%2".to_vec()]);
    let old = TmuxVersion::parse("3.3").expect("release parses");
    assert!(matches!(
        tmux_client::pane::clear_history_command(PaneId::new(2), true, Some(&old)),
        Err(Error::Unsupported { .. })
    ));
    let new = TmuxVersion::parse("3.4").expect("release parses");
    let reset = tmux_client::pane::clear_history_command(PaneId::new(2), true, Some(&new)).expect("supported");
    assert_eq!(texts(&reset), vec![b"-t".to_vec(), b"%2".to_vec(), b"-H".to_vec()]);
}

#[test]
fn cloned_sparse_maps_keep_every_index() {
    let sparse = tmux_client::options::SparseOptionMap::parse(b"hook[1] a\nhook[4] b\nalias[0] c\n").expect("parses");
    let copy = sparse.clone();
    assert!(copy == sparse);
    for (_, indexes) in copy.iter() {
        assert!(!indexes.is_empty());
    }
}
