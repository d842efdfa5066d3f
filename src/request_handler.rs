//! Turning a request line into the file to serve or a redirect, and framing
//! the response bytes.
use std::collections::BTreeMap;
use vstd::prelude::*;
use vstd::string::StringExecFns;
use vstd::utf8::encode_utf8;
use crate::bytes::{
    SLASH, SPACE, decimal, find_byte, find_from, join_path, push_all, push_decimal, push_joined,
    push_range, push_without, without_byte,
};

verus! {

broadcast use vstd::std_specs::btree::group_btree_axioms, vstd::laws_cmp::group_laws_cmp;

/// The status line sent for `code`; codes outside the table read `Unknown`.
pub open spec fn status_text(code: u16) -> Seq<char> {
    if code == 200 {
        "HTTP/1.1 200 OK"@
    } else if code == 301 {
        "HTTP/1.1 301 Moved Permanently"@
    } else if code == 400 {
        "HTTP/1.1 400 Bad Request"@
    } else if code == 404 {
        "HTTP/1.1 404 Not Found"@
    } else if code == 501 {
        "HTTP/1.1 501 Not Implemented"@
    } else {
        "Unknown"@
    }
}

pub open spec fn is_listed_code(code: u16) -> bool {
    code == 200 || code == 301 || code == 400 || code == 404 || code == 501
}

/// Table of the status lines the server sends.
pub struct HttpCodes {
    codes: BTreeMap<u16, &'static str>,
}

impl HttpCodes {
    pub closed spec fn wf(&self) -> bool {
        &&& forall|c: u16| #[trigger] self.codes@.contains_key(c) == is_listed_code(c)
        &&& forall|c: u16| #[trigger] self.codes@.contains_key(c) ==> self.codes@[c]@ == status_text(c)
    }

    pub fn new() -> (r: HttpCodes)
        ensures
            r.wf(),
    {
        let mut codes: BTreeMap<u16, &'static str> = BTreeMap::new();
        codes.insert(200, "HTTP/1.1 200 OK");
        codes.insert(301, "HTTP/1.1 301 Moved Permanently");
        codes.insert(400, "HTTP/1.1 400 Bad Request");
        codes.insert(404, "HTTP/1.1 404 Not Found");
        codes.insert(501, "HTTP/1.1 501 Not Implemented");
        let r = HttpCodes { codes };
        assert(r.wf());
        r
    }

    /// The status line for `code`.
    pub fn get(&self, code: u16) -> (r: &str)
        requires
            self.wf(),
        ensures
            r@ == status_text(code),
    {
        match self.codes.get(&code) {
            Some(text) => *text,
            None => "Unknown",
        }
    }
}


/// Whether the request starts with the method `GET`.
pub open spec fn is_get(q: Seq<u8>) -> bool {
    q.len() >= 3 && q[0] == 71 && q[1] == 69 && q[2] == 84
}

/// The second space-separated field of the request (its target), if the
/// request holds a space at all. The field runs to the next space or to the
/// end of the request.
pub open spec fn second_field(q: Seq<u8>) -> Option<Seq<u8>> {
    let a = find_from(q, SPACE, 0);
    if a >= q.len() {
        None
    } else {
        Some(q.subrange(a + 1, find_from(q, SPACE, a + 1)))
    }
}

/// UTF-8 bytes of a text.
pub open spec fn utf8(s: Seq<char>) -> Seq<u8> {
    encode_utf8(s)
}

/// What is found on disk at the requested path.
#[derive(Clone, Copy, PartialEq, Eq, Debug)]
pub enum PathKind {
    File,
    Directory,
    Missing,
}

/// What the file system says about a requested path: its kind, and whether
/// a directory there holds an `index.html`.
#[derive(Clone, Copy, PartialEq, Eq, Debug)]
pub struct Probe {
    pub kind: PathKind,
    pub index_exists: bool,
}

/// A status code and the file whose text becomes the response body.
#[derive(Debug)]
pub struct Reply {
    pub code: u16,
    pub file: Vec<u8>,
}

/// What a handling function answers: bytes ready to send, or a file to
/// read and frame with a status line.
#[derive(Debug)]
pub enum Answer {
    Ready(Vec<u8>),
    Serve(Reply),
}

/// The code and the file a request is answered with, under document root
/// `root`, given what is on disk at the requested path.
pub open spec fn resolve(root: Seq<u8>, q: Seq<u8>, probe: Probe) -> (u16, Seq<u8>) {
    if !is_get(q) {
        (501, join_path(root, utf8("501.html"@)))
    } else {
        match second_field(q) {
            None => (400, join_path(root, utf8("400.html"@))),
            Some(f) => {
                let p = join_path(root, without_byte(f, SLASH));
                if probe.kind is File {
                    (200, p)
                } else if probe.kind is Directory && probe.index_exists {
                    (200, join_path(p, utf8("index.html"@)))
                } else {
                    (404, join_path(root, utf8("404.html"@)))
                }
            },
        }
    }
}

/// The path a request asks for under `root`, if it is a `GET` with a target.
pub open spec fn requested(root: Seq<u8>, q: Seq<u8>) -> Option<Seq<u8>> {
    if is_get(q) && second_field(q) is Some {
        Some(join_path(root, without_byte(second_field(q)->Some_0, SLASH)))
    } else {
        None
    }
}

/// A response: status line, length header, blank line, body, blank line.
pub open spec fn response(code: u16, body: Seq<u8>) -> Seq<u8> {
    utf8(status_text(code)) + utf8("\r\nContent-Length: "@) + decimal(body.len()) + utf8(
        "\r\n\r\n"@,
    ) + body + utf8("\r\n\r\n"@)
}

/// A permanent redirect to `destination` followed by the request's target.
pub open spec fn redirect_response(destination: Seq<char>, target: Seq<u8>) -> Seq<u8> {
    utf8(status_text(301)) + utf8("\r\nLocation: "@) + utf8(destination) + target + utf8(
        "\r\n\r\n"@,
    )
}

/// Whether a redirect can be built for the request: a `GET` must name a target.
pub open spec fn redirectable(q: Seq<u8>) -> bool {
    is_get(q) ==> second_field(q) is Some
}

/// Serves files under a document root, or redirects.
pub struct RequestHandler {
    http_codes: HttpCodes,
    document_root: String,
}

impl RequestHandler {
    pub closed spec fn wf(&self) -> bool {
        self.http_codes.wf()
    }

    /// The document root's bytes.
    pub closed spec fn root(&self) -> Seq<u8> {
        utf8(self.document_root@)
    }

    /// A handler for `document_root`; `root_is_directory` tells whether that
    /// path names a directory, and without one there is nothing to serve.
    pub fn new(document_root: String, root_is_directory: bool) -> (r: Result<RequestHandler, String>)
        ensures
            root_is_directory <==> r is Ok,
            r is Ok ==> r->Ok_0.wf() && r->Ok_0.root() == utf8(document_root@),
            r is Err ==> r->Err_0@ == "No such directory. "@ + document_root@ + " not found."@,
    {
        if !root_is_directory {
            let mut message = "No such directory. ".to_owned();
            message.append(document_root.as_str());
            message.append(" not found.");
            return Err(message);
        }
        Ok(RequestHandler { http_codes: HttpCodes::new(), document_root })
    }

    /// `file` joined onto the document root.
    pub fn get_path(&self, file: &str) -> (r: Vec<u8>)
        ensures
            r@ == join_path(self.root(), utf8(file@)),
    {
        let mut v: Vec<u8> = Vec::new();
        push_joined(&mut v, self.document_root.as_str().as_bytes(), file.as_bytes());
        v
    }

    /// The path on disk a request asks for, if it is a `GET` naming a target;
    /// what is found there is the `Probe` that `handle` takes.
    pub fn requested_path(&self, request: &str) -> (r: Option<Vec<u8>>)
        ensures
            r matches Some(p) ==> requested(self.root(), utf8(request@)) == Some(p@),
            r is None ==> requested(self.root(), utf8(request@)) is None,
    {
        let q = request.as_bytes();
        match target_range(q) {
            Some((a, e)) => {
                if !starts_with_get(q) {
                    return None;
                }
                let mut item: Vec<u8> = Vec::new();
                push_without(&mut item, slice_range(q, a, e).as_slice(), SLASH);
                let mut v: Vec<u8> = Vec::new();
                push_joined(&mut v, self.document_root.as_str().as_bytes(), item.as_slice());
                Some(v)
            },
            None => None,
        }
    }

    /// Decides how to answer `request`: which status and which file, given
    /// what is on disk at the path that `requested_path` names.
    pub fn handle(&self, request: String, probe: Probe) -> (r: Reply)
        ensures
            (r.code, r.file@) == resolve(self.root(), utf8(request@), probe),
    {
        let q = request.as_str().as_bytes();
        if !starts_with_get(q) {
            return Reply { code: 501, file: self.get_path("501.html") };
        }
        match target_range(q) {
            None => Reply { code: 400, file: self.get_path("400.html") },
            Some((a, e)) => {
                let mut item: Vec<u8> = Vec::new();
                push_without(&mut item, slice_range(q, a, e).as_slice(), SLASH);
                let mut path: Vec<u8> = Vec::new();
                push_joined(&mut path, self.document_root.as_str().as_bytes(), item.as_slice());
                match probe.kind {
                    PathKind::File => Reply { code: 200, file: path },
                    PathKind::Directory if probe.index_exists => {
                        Reply { code: 200, file: index_path(path.as_slice()) }
                    },
                    _ => Reply { code: 404, file: self.get_path("404.html") },
                }
            },
        }
    }

    /// Answers `request` with a permanent redirect to `destination` followed
    /// by the request's target; a request other than `GET` is answered with
    /// the bad-request page.
    pub fn redirect(&self, request: String, destination: String) -> (r: Answer)
        requires
            self.wf(),
            redirectable(utf8(request@)),
        ensures
            is_get(utf8(request@)) ==> (r matches Answer::Ready(b) && b@ == redirect_response(
                destination@,
                second_field(utf8(request@))->Some_0,
            )),
            !is_get(utf8(request@)) ==> (r matches Answer::Serve(reply) && reply.code == 400
                && reply.file@ == join_path(self.root(), utf8("400.html"@))),
    {
        let q = request.as_str().as_bytes();
        if !starts_with_get(q) {
            return Answer::Serve(Reply { code: 400, file: self.get_path("400.html") });
        }
        match target_range(q) {
            Some((a, e)) => {
                let mut v: Vec<u8> = Vec::new();
                push_all(&mut v, self.http_codes.get(301).as_bytes());
                push_all(&mut v, "\r\nLocation: ".as_bytes());
                push_all(&mut v, destination.as_str().as_bytes());
                push_range(&mut v, q, a, e);
                push_all(&mut v, "\r\n\r\n".as_bytes());
                proof {
                    assert(v@ =~= redirect_response(destination@, q@.subrange(a as int, e as int)));
                }
                Answer::Ready(v)
            },
            None => Answer::Serve(Reply { code: 400, file: self.get_path("400.html") }),
        }
    }

    /// Frames `content` as the body of a response with status `code`.
    pub fn format_response(&self, code: u16, content: &str) -> (r: Vec<u8>)
        requires
            self.wf(),
        ensures
            r@ == response(code, utf8(content@)),
    {
        let body = content.as_bytes();
        let mut v: Vec<u8> = Vec::new();
        push_all(&mut v, self.http_codes.get(code).as_bytes());
        push_all(&mut v, "\r\nContent-Length: ".as_bytes());
        push_decimal(&mut v, body.len());
        push_all(&mut v, "\r\n\r\n".as_bytes());
        push_all(&mut v, body);
        push_all(&mut v, "\r\n\r\n".as_bytes());
        assert(v@ =~= response(code, utf8(content@)));
        v
    }
}

/// `index.html` joined onto a directory path.
pub fn index_path(dir: &[u8]) -> (r: Vec<u8>)
    ensures
        r@ == join_path(dir@, utf8("index.html"@)),
{
    let mut v: Vec<u8> = Vec::new();
    push_joined(&mut v, dir, "index.html".as_bytes());
    v
}

fn starts_with_get(q: &[u8]) -> (r: bool)
    ensures
        r == is_get(q@),
{
    q.len() >= 3 && q[0] == 71 && q[1] == 69 && q[2] == 84
}

/// Where the request's second field lies, as a range of its bytes.
fn target_range(q: &[u8]) -> (r: Option<(usize, usize)>)
    ensures
        r is None <==> second_field(q@) is None,
        r matches Some((a, e)) ==> a <= e <= q@.len() && second_field(q@) == Some(
            q@.subrange(a as int, e as int),
        ),
{
    let s = find_byte(q, SPACE, 0);
    if s >= q.len() {
        return None;
    }
    let e = find_byte(q, SPACE, s + 1);
    Some((s + 1, e))
}

/// Index of the first space in `q`, or `q.len()`.
pub fn find_space(q: &[u8]) -> (r: usize)
    ensures
        r == find_from(q@, SPACE, 0),
        r <= q@.len(),
{
    find_byte(q, SPACE, 0)
}

fn slice_range(q: &[u8], a: usize, e: usize) -> (r: Vec<u8>)
    requires
        a <= e <= q@.len(),
    ensures
        r@ == q@.subrange(a as int, e as int),
{
    let mut v: Vec<u8> = Vec::new();
    push_range(&mut v, q, a, e);
    assert(v@ =~= q@.subrange(a as int, e as int));
    v
}

} // verus!
