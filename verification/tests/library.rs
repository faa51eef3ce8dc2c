use std::cmp::Ordering;

use tmux_client::command::Command;
use tmux_client::formats::{
    fields_for_listing, format_descriptor, parse_rows, render_format, FormatScope, FORMAT_SEPARATOR,
};
use tmux_client::options::{OptionMap, OptionValue, SparseOptionMap};
use tmux_client::query::{text_matches, Comparison, Pattern, TextComparison};
use tmux_client::server::{check_timeout, parse_environment};
use tmux_client::target::{PaneId, SessionId, SessionName, WindowId};
use tmux_client::text::TmuxText;
use tmux_client::version::{ReleaseVersion, TmuxVersion};

#[test]
fn redacts_sensitive_arguments() {
    let command = Command::new("set-environment")
        .arg("TOKEN")
        .sensitive_arg("secret")
        .sensitive_input("secret input");
    assert_eq!(
        command.summary().as_str(),
        "set-environment TOKEN <redacted> <stdin:redacted>"
    );
    assert!(!command.summary().as_str().contains("secret"));
}

#[test]
fn version_gates_new_fields() {
    let Ok(version) = TmuxVersion::parse("3.6") else {
        return;
    };
    let fields = fields_for_listing(&[FormatScope::Pane], &version);
    assert!(!fields.iter().any(|field| field.token() == "pane_flags"));
}

#[test]
fn format_rows_round_trip() {
    let Ok(version) = TmuxVersion::parse("3.2a") else {
        return;
    };
    let fields = fields_for_listing(&[FormatScope::Session], &version);
    let fields = &fields[..2];
    assert!(render_format(fields).contains("#{session_id}"));
    let output = format!("$1{FORMAT_SEPARATOR}name\n");
    let Ok(rows) = parse_rows(output.as_bytes(), fields) else {
        return;
    };
    assert_eq!(rows.len(), 1);
}

#[test]
fn malformed_rows_and_values_are_rejected() {
    let Ok(version) = TmuxVersion::parse("3.2a") else {
        return;
    };
    let fields = fields_for_listing(&[FormatScope::Session], &version);
    assert!(parse_rows(b"only-one-field\n", &fields[..2]).is_err());

    let Some(boolean) = format_descriptor("pane_active") else {
        return;
    };
    assert!(boolean.decode(&TmuxText::from_str("not-a-boolean")).is_err());
}

#[test]
fn parses_option_output_without_losing_spaces() {
    let Ok(options) = OptionMap::parse(b"status-left hello world\nbase-index 1\n") else {
        return;
    };
    assert_eq!(
        options
            .get("status-left")
            .and_then(OptionValue::as_text)
            .map(TmuxText::as_bytes),
        Some(b"hello world".as_slice())
    );
}

#[test]
fn parses_sparse_arrays() {
    let Ok(options) = SparseOptionMap::parse(b"hook[1] first\nhook[9] ninth\n") else {
        return;
    };
    assert_eq!(
        options.get("hook").map(std::collections::BTreeMap::len),
        Some(2)
    );
}

struct Item {
    name: String,
    count: u32,
}

#[test]
fn expressions_compose_and_filter_iterators() {
    let matches = |item: &Item| {
        Comparison::GreaterOrEqual.accepts_partial(item.count.partial_cmp(&2))
            && text_matches(&item.name, "ALP", TextComparison::StartsWith, true)
    };
    let values = vec![
        Item {
            name: "alpha".to_owned(),
            count: 1,
        },
        Item {
            name: "Alpine".to_owned(),
            count: 3,
        },
    ];
    let result = values.into_iter().filter(|item| matches(item)).collect::<Vec<_>>();
    assert_eq!(result.len(), 1);
    assert_eq!(result[0].name, "Alpine");
}

#[test]
fn regex_filters() {
    let Ok(pattern) = Pattern::new("^a.+a$", true) else {
        return;
    };
    assert!(pattern.is_match("Alpha"));
}

#[test]
fn zero_timeout_is_rejected() {
    assert!(check_timeout(0, 0).is_err());
}

#[test]
fn environment_parser_preserves_values() {
    let Ok(values) = parse_environment(b"A=x=y\n-B\n") else {
        return;
    };
    assert_eq!(
        values
            .get("A")
            .and_then(Option::as_ref)
            .map(TmuxText::as_bytes),
        Some(b"x=y".as_slice())
    );
    assert!(matches!(values.get("B"), Some(None)));
}

#[test]
fn ids_round_trip() {
    assert_eq!(
        SessionId::from_str("$4").ok().map(|id| id.to_string()).as_deref(),
        Some("$4")
    );
    assert_eq!(
        WindowId::from_str("@3").ok().map(|id| id.to_string()).as_deref(),
        Some("@3")
    );
    assert_eq!(
        PaneId::from_str("%2").ok().map(|id| id.to_string()).as_deref(),
        Some("%2")
    );
}

#[test]
fn invalid_session_names_are_rejected() {
    assert!(SessionName::new("").is_err());
    assert!(SessionName::new("bad:name").is_err());
    assert!(SessionName::new("bad.name").is_err());
}

#[test]
fn invalid_utf8_is_preserved() {
    let text = TmuxText::new(vec![0xff, b'a']);
    assert!(text.to_str().is_err());
    assert_eq!(text.as_bytes(), &[0xff, b'a']);
}

#[test]
fn parses_release_suffixes() {
    assert_eq!(
        TmuxVersion::parse("tmux 3.2a").ok(),
        Some(TmuxVersion::Release(ReleaseVersion::new(3, 2, Some('a'))))
    );
    assert_eq!(
        TmuxVersion::parse("3.6").ok(),
        Some(TmuxVersion::Release(ReleaseVersion::new(3, 6, None)))
    );
}

#[test]
fn orders_lettered_releases() {
    let plain = ReleaseVersion::new(3, 2, None);
    let patched = ReleaseVersion::new(3, 2, Some('a'));
    assert!(patched > plain);
}

#[test]
fn ordering_comparisons_accept_as_documented() {
    assert!(Comparison::Less.accepts_ordering(Ordering::Less));
    assert!(!Comparison::Less.accepts_ordering(Ordering::Equal));
    assert!(Comparison::LessOrEqual.accepts_ordering(Ordering::Equal));
    assert!(!Comparison::Greater.accepts_ordering(Ordering::Equal));
    assert!(Comparison::GreaterOrEqual.accepts_ordering(Ordering::Greater));
    assert!(!Comparison::GreaterOrEqual.accepts_partial(None));
    assert_eq!(Comparison::LessOrEqual.symbol(), "<=");
}
