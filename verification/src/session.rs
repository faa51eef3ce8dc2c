//! The commands of session operations.

use vstd::prelude::*;
use vstd::utf8::encode_utf8;
use crate::command::{command_with, flag_if, hidden_opt, plain, plain_bytes, text_opt, with_args, Command, CommandView};
use crate::error::{Error, ErrorView};
use crate::server::{invalid_name, valid_name, validate_name};
use crate::target::{id_text, valid_session_name, window_target_text, SessionId, SessionName, WindowTarget};
use crate::text::TmuxText;
use crate::version::{gate, gate_passes, release_of, unsupported, TmuxVersion};

verus! {

/// The bytes of a session identity.
pub open spec fn session_bytes(id: u64) -> Seq<u8> {
    encode_utf8(id_text('$', id))
}

/// The target arguments of a session.
pub open spec fn session_target_args(id: u64) -> Seq<(Seq<u8>, bool)> {
    seq![plain("-t"), plain_bytes(session_bytes(id))]
}

/// Builds a command that only names the session: `switch-client`,
/// `lock-session`, `last-window`, `kill-session`, `show-environment` and the like.
pub fn session_command(subcommand: &str, session: SessionId) -> (r: Command)
    ensures
        r@ == command_with(subcommand, session_target_args(session@)),
{
    let c = Command::new(subcommand).target(session.to_text());
    assert(c@.arguments =~= session_target_args(session@));
    c
}

/// Builds `rename-session` for a new name, which must be a valid session name.
pub fn rename_command(session: SessionId, name: &str) -> (r: Result<Command, Error>)
    ensures
        valid_session_name(name@) ==> (r matches Ok(c) && c@ == command_with("rename-session",
            session_target_args(session@) + seq![plain_bytes(encode_utf8(name@))])),
        !valid_session_name(name@) ==> (r matches Err(e) && e@ == ErrorView::InvalidSessionName(name@)),
{
    let n = match SessionName::new(name) {
        Ok(n) => n,
        Err(e) => return Err(e),
    };
    Ok(session_command("rename-session", session).arg_text(n.to_text()))
}

/// Builds a command for a window target: `kill-window` or `select-window`.
pub fn window_target_command(subcommand: &str, target: &WindowTarget) -> (r: Command)
    ensures
        r@ == command_with(subcommand, seq![plain("-t"), plain_bytes(encode_utf8(window_target_text(target@)))]),
{
    let c = Command::new(subcommand).target(target.to_text());
    assert(c@.arguments =~= seq![plain("-t"), plain_bytes(encode_utf8(window_target_text(target@)))]);
    c
}

/// Builds `next-window` or `previous-window`, to a window with an alert when asked.
pub fn step_window_command(subcommand: &str, session: SessionId, alert: bool) -> (r: Command)
    ensures
        r@ == command_with(subcommand, flag_if(alert, "-a") + session_target_args(session@)),
{
    let base = Command::new(subcommand).flag(alert, "-a");
    assert(base@.arguments =~= flag_if(alert, "-a"));
    let r = base.target(session.to_text());
    assert(r@.arguments =~= flag_if(alert, "-a") + session_target_args(session@));
    r
}

/// Builds `move-window -r -t SESSION`, which renumbers the session's windows.
pub fn renumber_windows_command(session: SessionId) -> (r: Command)
    ensures
        r@ == command_with("move-window", seq![plain("-r")] + session_target_args(session@)),
{
    let c = Command::new("move-window").arg("-r").target(session.to_text());
    assert(c@.arguments =~= seq![plain("-r")] + session_target_args(session@));
    c
}

/// `detach-client -s SESSION`, running a shell command after detaching when given.
pub open spec fn detach_clients_spec(session: u64, shell_command: Option<Seq<u8>>) -> CommandView {
    command_with("detach-client", seq![plain("-s"), plain_bytes(session_bytes(session))]
        + match shell_command { Some(s) => seq![plain("-E"), (s, true)], None => seq![] })
}

/// Builds the command that detaches every client of a session.
pub fn detach_clients_command(session: SessionId, shell_command: Option<TmuxText>) -> (r: Command)
    ensures
        r@ == detach_clients_spec(session@, text_opt(shell_command)),
{
    let base = Command::new("detach-client").arg("-s").arg_text(session.to_text());
    assert(base@.arguments =~= seq![plain("-s"), plain_bytes(session_bytes(session@))]);
    let ghost s = text_opt(shell_command);
    let r = match shell_command {
        Some(c) => base.arg("-E").argument(c, true),
        None => base,
    };
    assert(r@.arguments =~= detach_clients_spec(session@, s).arguments);
    r
}

/// Builds `kill-session` with its flags; killing the whole group needs tmux 3.7.
pub fn kill_with_command(session: SessionId, all_except: bool, clear_alerts: bool, group: bool, version: &TmuxVersion) -> (r: Result<Command, Error>)
    ensures
        gate_passes(version@, group, release_of(3, 7)) ==> (r matches Ok(c) && c@ == command_with("kill-session",
            session_target_args(session@) + flag_if(all_except, "-a") + flag_if(clear_alerts, "-C") + flag_if(group, "-g"))),
        !gate_passes(version@, group, release_of(3, 7)) ==> (r matches Err(e) && e@ == unsupported("kill session group", release_of(3, 7), version@)),
{
    match gate(version, group, "kill session group", 3, 7) {
        Err(e) => return Err(e),
        Ok(()) => {},
    }
    Ok(session_command("kill-session", session).flag(all_except, "-a").flag(clear_alerts, "-C").flag(group, "-g"))
}

/// `set-environment -t SESSION` with its flags; the value is hidden in diagnostics.
pub open spec fn set_environment_spec(session: u64, name: Seq<char>, value: Seq<u8>, expand_formats: bool, hidden: bool) -> CommandView {
    command_with("set-environment", session_target_args(session) + flag_if(expand_formats, "-F") + flag_if(hidden, "-h")
        + seq![plain_bytes(encode_utf8(name)), (value, true)])
}

/// Builds the command that sets a session environment variable.
pub fn set_environment_command(session: SessionId, name: &str, value: TmuxText, expand_formats: bool, hidden: bool) -> (r: Result<Command, Error>)
    ensures
        valid_name(name@) ==> (r matches Ok(c) && c@ == set_environment_spec(session@, name@, value@, expand_formats, hidden)),
        !valid_name(name@) ==> (r matches Err(e) && e@ == invalid_name("environment name")),
{
    match validate_name("environment name", name) {
        Err(e) => return Err(e),
        Ok(()) => {},
    }
    let ghost v = value@;
    let c = session_command("set-environment", session).flag(expand_formats, "-F").flag(hidden, "-h");
    let r = c.arg_text(TmuxText::from_str(name)).argument(value, true);
    assert(r@.arguments =~= set_environment_spec(session@, name@, v, expand_formats, hidden).arguments);
    Ok(r)
}

/// `set-environment FLAG -t SESSION NAME`, for unsetting (`-u`) or removing (`-r`).
pub open spec fn environment_flag_spec(session: u64, flag: &str, name: Seq<char>) -> CommandView {
    command_with("set-environment", seq![plain(flag)] + session_target_args(session) + seq![plain_bytes(encode_utf8(name))])
}

/// Builds the command that unsets or removes a session environment variable.
pub fn environment_flag_command(session: SessionId, flag: &str, name: &str) -> (r: Result<Command, Error>)
    ensures
        valid_name(name@) ==> (r matches Ok(c) && c@ == environment_flag_spec(session@, flag, name@)),
        !valid_name(name@) ==> (r matches Err(e) && e@ == invalid_name("environment name")),
{
    match validate_name("environment name", name) {
        Err(e) => return Err(e),
        Ok(()) => {},
    }
    let r = Command::new("set-environment").arg(flag).target(session.to_text()).arg_text(TmuxText::from_str(name));
    assert(r@.arguments =~= environment_flag_spec(session@, flag, name@).arguments);
    Ok(r)
}

} // verus!
