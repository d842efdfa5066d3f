//! The work done for one accepted connection, between reading the request
//! and writing the answer.
use vstd::prelude::*;
use crate::bytes::{decode_lossy, ends_with_blank_line, has_blank_line_end, join_path, lossy_text};
use crate::request_handler::{
    Answer, Probe, RequestHandler, is_get, redirectable, resolve, second_field, utf8,
    redirect_response, find_space,
};

verus! {

/// How a listener answers its requests, chosen once when it is built.
#[derive(Debug)]
pub enum Handling {
    /// Serve files from the handler's document root.
    Resolve,
    /// Redirect every request to `destination`.
    Redirect { destination: String },
}

/// The request text, if it is complete: it must end with a blank line.
pub open spec fn complete_request(text: Seq<char>) -> Option<Seq<char>> {
    if ends_with_blank_line(utf8(text)) {
        Some(text)
    } else {
        None
    }
}

/// Keeps `text` as a request only when it ends with `\r\n\r\n`; an
/// incomplete request is dropped without an answer.
pub fn accept_request(text: String) -> (r: Option<String>)
    ensures
        r matches Some(t) ==> complete_request(text@) == Some(t@),
        r is None ==> complete_request(text@) is None,
{
    if has_blank_line_end(text.as_str().as_bytes()) {
        Some(text)
    } else {
        None
    }
}

/// Decodes the bytes read from a connection and keeps them as a request
/// when complete.
pub fn decode_request(received: &[u8]) -> (r: Option<String>)
    ensures
        r matches Some(t) ==> complete_request(lossy_text(received@)) == Some(t@),
        r is None ==> complete_request(lossy_text(received@)) is None,
{
    accept_request(decode_lossy(received))
}

/// Answers a complete request the way `handling` says; `probe` describes
/// what is on disk at the path `RequestHandler::requested_path` names.
/// A redirect of a `GET` that names no target gets no answer: the
/// connection is dropped.
pub fn respond(handler: &RequestHandler, handling: &Handling, request: String, probe: Probe) -> (r:
    Option<Answer>)
    requires
        handler.wf(),
    ensures
        handling is Resolve ==> (r matches Some(Answer::Serve(reply)) && (reply.code, reply.file@)
            == resolve(handler.root(), utf8(request@), probe)),
        handling matches Handling::Redirect { destination } ==> {
            let q = utf8(request@);
            &&& r is None <==> !redirectable(q)
            &&& (redirectable(q) && is_get(q)) ==> (r matches Some(Answer::Ready(b)) && b@
                == redirect_response(destination@, second_field(q)->Some_0))
            &&& !is_get(q) ==> (r matches Some(Answer::Serve(reply)) && reply.code == 400
                && reply.file@ == join_path(handler.root(), utf8("400.html"@)))
        },
{
    match handling {
        Handling::Resolve => Some(Answer::Serve(handler.handle(request, probe))),
        Handling::Redirect { destination } => {
            if !can_redirect(request.as_str()) {
                return None;
            }
            Some(handler.redirect(request, destination.clone()))
        },
    }
}

fn can_redirect(request: &str) -> (r: bool)
    ensures
        r == redirectable(utf8(request@)),
{
    let q = request.as_bytes();
    !(q.len() >= 3 && q[0] == 71 && q[1] == 69 && q[2] == 84) || find_space(q) < q.len()
}

} // verus!
