//! The control channel's command handling: what to reply to a command and
//! whether the control loop returns.
use vstd::prelude::*;
use crate::bytes::{decode_lossy, lossy_text};

verus! {

/// `s` without the NUL characters at its start and at its end.
pub open spec fn trim_nul(s: Seq<char>) -> Seq<char>
    decreases s.len(),
{
    if s.len() > 0 && s[0] == '\0' {
        trim_nul(s.drop_first())
    } else if s.len() > 0 && s.last() == '\0' {
        trim_nul(s.drop_last())
    } else {
        s
    }
}

/// White space as Unicode's `White_Space` property defines it.
pub open spec fn is_white(c: char) -> bool {
    ('\u{9}' <= c && c <= '\u{d}') || c == ' ' || c == '\u{85}' || c == '\u{a0}' || c
        == '\u{1680}' || ('\u{2000}' <= c && c <= '\u{200a}') || c == '\u{2028}' || c
        == '\u{2029}' || c == '\u{202f}' || c == '\u{205f}' || c == '\u{3000}'
}

/// `s` without the white space at its start and at its end.
pub open spec fn trimmed(s: Seq<char>) -> Seq<char>
    decreases s.len(),
{
    if s.len() > 0 && is_white(s[0]) {
        trimmed(s.drop_first())
    } else if s.len() > 0 && is_white(s.last()) {
        trimmed(s.drop_last())
    } else {
        s
    }
}

/// The command that stops the server.
pub open spec fn stop_command() -> Seq<char> {
    "stop"@
}

/// The reply to a command; only `stop` ends the control loop.
pub open spec fn reply_text(command: Seq<char>) -> Seq<char> {
    if command == stop_command() {
        "Stopping blocking IpcListener."@
    } else {
        "Unknown command."@
    }
}

/// The reply to send back and whether the control loop returns after it.
#[derive(Debug)]
pub struct ControlReply {
    pub stop: bool,
    pub reply: &'static str,
}

/// Reads what a client sent as one command: the bytes decoded as text,
/// with NUL padding around it removed.
pub fn read_command(received: &[u8]) -> (r: String)
    ensures
        r@ == trim_nul(lossy_text(received@)),
{
    let text = decode_lossy(received);
    trim_nul_chars(text.as_str())
}

/// Answers a command already stripped of surrounding white space: `stop`
/// ends the loop after its confirmation, anything else is unknown and the
/// session goes on.
pub fn reply_to(command: &str) -> (r: ControlReply)
    ensures
        r.stop == (command@ == stop_command()),
        r.reply@ == reply_text(command@),
{
    let c = command.to_owned();
    let stop = "stop".to_owned();
    proof {
        reveal_strlit("stop");
    }
    if c == stop {
        ControlReply { stop: true, reply: "Stopping blocking IpcListener." }
    } else {
        ControlReply { stop: false, reply: "Unknown command." }
    }
}

/// Answers a message from a control client; surrounding white space is
/// ignored.
pub fn control_reply(message: &str) -> (r: ControlReply)
    ensures
        r.stop == (trimmed(message@) == stop_command()),
        r.reply@ == reply_text(trimmed(message@)),
{
    let t = trim_white(message);
    reply_to(t.as_str())
}

/// Relies on `str::trim_matches` with the NUL character: strips every
/// leading and trailing NUL.
#[verifier::external_body]
fn trim_nul_chars(s: &str) -> (r: String)
    ensures
        r@ == trim_nul(s@),
{
    s.trim_matches(char::from(0)).to_owned()
}

/// Relies on `str::trim`: strips every leading and trailing character that
/// has Unicode's `White_Space` property.
#[verifier::external_body]
fn trim_white(s: &str) -> (r: String)
    ensures
        r@ == trimmed(s@),
{
    s.trim().to_owned()
}

} // verus!
