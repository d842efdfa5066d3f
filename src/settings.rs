//! The configuration the server runs with.
use vstd::prelude::*;
use crate::connection::Handling;

verus! {

/// Everything the server is configured with.
#[derive(Debug)]
pub struct Settings {
    pub server: Server,
    pub https: Https,
    pub http: Http,
}

/// Where the server listens and what it serves.
#[derive(Debug)]
pub struct Server {
    pub ip: String,
    pub domain: Option<String>,
    pub document_root: String,
}

/// The encrypted listener's port, optional redirect, worker count and
/// credentials.
#[derive(Debug)]
pub struct Https {
    pub port: u16,
    pub redirect: Option<String>,
    pub threads: usize,
    pub ssl: SSL,
}

/// Where the PKCS #12 identity lies and the password that opens it.
#[derive(Debug)]
pub struct SSL {
    pub identity: String,
    pub password: String,
}

/// The plaintext listener's port, optional redirect and worker count.
#[derive(Debug)]
pub struct Http {
    pub port: u16,
    pub redirect: Option<String>,
    pub threads: usize,
}

/// Worker count of a listener whose configuration names none.
pub fn threads() -> (r: usize)
    ensures
        r == 4,
{
    4
}

/// A listener redirects to its configured destination when it has one, and
/// serves files otherwise.
pub fn handling_for(redirect: &Option<String>) -> (r: Handling)
    ensures
        redirect is None ==> r is Resolve,
        redirect matches Some(d) ==> (r matches Handling::Redirect { destination }
            && destination@ == d@),
{
    match redirect {
        Some(d) => Handling::Redirect { destination: d.clone() },
        None => Handling::Resolve,
    }
}

impl Http {
    /// How this listener answers requests.
    pub fn handling(&self) -> (r: Handling)
        ensures
            self.redirect is None ==> r is Resolve,
            self.redirect matches Some(d) ==> (r matches Handling::Redirect { destination }
                && destination@ == d@),
    {
        handling_for(&self.redirect)
    }
}

impl Https {
    /// How this listener answers requests.
    pub fn handling(&self) -> (r: Handling)
        ensures
            self.redirect is None ==> r is Resolve,
            self.redirect matches Some(d) ==> (r matches Handling::Redirect { destination }
                && destination@ == d@),
    {
        handling_for(&self.redirect)
    }
}

} // verus!
