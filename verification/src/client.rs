//! The commands of attached-client operations.

use vstd::prelude::*;
use vstd::utf8::encode_utf8;
use crate::command::{command_with, flag_if, number_bytes, plain, plain_bytes, with_args, Command, CommandView};
use crate::error::{invalid_argument, invalid_argument_error, Error, ErrorView};
use crate::numeric::decimal;
use crate::target::{session_target_text, ClientName, SessionTarget};
use crate::text::TmuxText;

verus! {

/// The target arguments of a client.
pub open spec fn client_target_args(client: Seq<u8>) -> Seq<(Seq<u8>, bool)> {
    seq![plain("-t"), plain_bytes(client)]
}

/// Builds `detach-client -t CLIENT`, hanging up the client's parent process when asked.
pub fn detach_command(client: &ClientName, hangup: bool) -> (r: Command)
    ensures
        r@ == command_with("detach-client", flag_if(hangup, "-P") + client_target_args(client@)),
{
    let base = Command::new("detach-client").flag(hangup, "-P");
    assert(base@.arguments =~= flag_if(hangup, "-P"));
    let r = base.arg("-t").arg_text(client.to_os_string());
    assert(r@.arguments =~= flag_if(hangup, "-P") + client_target_args(client@));
    r
}

/// Builds `switch-client -c CLIENT -t SESSION`.
pub fn switch_session_command(client: &ClientName, target: &SessionTarget) -> (r: Command)
    ensures
        r@ == command_with("switch-client", seq![plain("-c"), plain_bytes(client@), plain("-t"),
            plain_bytes(encode_utf8(session_target_text(target@)))]),
{
    let r = Command::new("switch-client").arg("-c").arg_text(client.to_os_string()).arg("-t").arg_text(target.to_text());
    assert(r@.arguments =~= seq![plain("-c"), plain_bytes(client@), plain("-t"), plain_bytes(encode_utf8(session_target_text(target@)))]);
    r
}

/// Builds a command that only names the client: `suspend-client` or `lock-client`.
pub fn client_command(subcommand: &str, client: &ClientName) -> (r: Command)
    ensures
        r@ == command_with(subcommand, client_target_args(client@)),
{
    let r = Command::new(subcommand).arg("-t").arg_text(client.to_os_string());
    assert(r@.arguments =~= client_target_args(client@));
    r
}

/// The size argument of a client: `WIDTH,HEIGHT`.
pub open spec fn client_size_bytes(width: u32, height: u32) -> Seq<u8> {
    encode_utf8(decimal(width as nat) + seq![','] + decimal(height as nat))
}

/// Builds `refresh-client -C WIDTH,HEIGHT -t CLIENT`; both dimensions must be non-zero.
pub fn resize_command(client: &ClientName, width: u32, height: u32) -> (r: Result<Command, Error>)
    ensures
        width != 0 && height != 0 ==> (r matches Ok(c) && c@ == command_with("refresh-client",
            seq![plain("-C"), plain_bytes(client_size_bytes(width, height))] + client_target_args(client@))),
        width == 0 || height == 0 ==> (r matches Err(e) && e@ == invalid_argument("client size", "width and height must be non-zero")),
{
    if width == 0 || height == 0 {
        return Err(invalid_argument_error("client size", "width and height must be non-zero"));
    }
    let w = crate::numeric::decimal_chars(width as u64);
    let h = crate::numeric::decimal_chars(height as u64);
    let mut s = crate::text::string_from_chars(w.as_slice());
    crate::text::push_char(&mut s, ',');
    crate::text::append_chars(&mut s, h.as_slice());
    assert(s@ =~= decimal(width as nat) + seq![','] + decimal(height as nat));
    let r = Command::new("refresh-client").arg("-C").arg_text(TmuxText::from_string(s)).arg("-t").arg_text(client.to_os_string());
    assert(r@.arguments =~= seq![plain("-C"), plain_bytes(client_size_bytes(width, height))] + client_target_args(client@));
    Ok(r)
}

} // verus!
