//! Addresses on the print server, made with the url crate.

use vstd::prelude::*;

use url::Url;

use crate::config::Cups;

verus! {

/// An optional text by its characters.
pub open spec fn opt_view(o: Option<String>) -> Option<Seq<char>> {
    match o {
        Some(s) => Some(s@),
        None => None,
    }
}

/// The serialization of the URL that url reads from a text, if the text is a URL.
pub uninterp spec fn url_serialization(text: Seq<char>) -> Option<Seq<char>>;

/// The serialization of a URL after url sets its user name, if it can.
pub uninterp spec fn url_with_username(url: Seq<char>, username: Seq<char>) -> Option<Seq<char>>;

/// The serialization of a URL after url sets its password, if it can.
pub uninterp spec fn url_with_password(url: Seq<char>, password: Seq<char>) -> Option<Seq<char>>;

/// The serialization of a reference resolved by url against a base URL, if it resolves.
pub uninterp spec fn url_join(base: Seq<char>, reference: Seq<char>) -> Option<Seq<char>>;

/// The host of a URL as url gives it, if the text is a URL with a host.
pub uninterp spec fn url_host(url: Seq<char>) -> Option<Seq<char>>;

/// The port written in a URL, if the text is a URL that names a port other
/// than its scheme's default.
pub uninterp spec fn url_port(url: Seq<char>) -> Option<u16>;

/// Relies on `Url::parse`: reads a URL from a text, handed on in its serialization.
#[verifier::external_body]
fn parse_url(text: &str) -> (r: Option<String>)
    ensures
        opt_view(r) == url_serialization(text@),
{
    Url::parse(text).ok().map(|u| u.to_string())
}

/// Relies on `Url::set_username`, on the URL that a serialization holds.
#[verifier::external_body]
fn set_url_username(url: &str, username: &str) -> (r: Option<String>)
    ensures
        opt_view(r) == url_with_username(url@, username@),
{
    let mut u = Url::parse(url).ok()?;
    u.set_username(username).ok()?;
    Some(u.to_string())
}

/// Relies on `Url::set_password`, on the URL that a serialization holds.
#[verifier::external_body]
fn set_url_password(url: &str, password: &str) -> (r: Option<String>)
    ensures
        opt_view(r) == url_with_password(url@, password@),
{
    let mut u = Url::parse(url).ok()?;
    u.set_password(Some(password)).ok()?;
    Some(u.to_string())
}

/// Relies on `Url::join`: resolves a reference against the URL that a serialization holds.
#[verifier::external_body]
fn join_url(base: &str, reference: &str) -> (r: Option<String>)
    ensures
        opt_view(r) == url_join(base@, reference@),
{
    Url::parse(base).ok()?.join(reference).ok().map(|u| u.to_string())
}

/// Relies on `Url::host_str`, on the URL that a text holds.
#[verifier::external_body]
fn host_of_url(url: &str) -> (r: Option<String>)
    ensures
        opt_view(r) == url_host(url@),
{
    Url::parse(url).ok()?.host_str().map(|h| h.to_string())
}

/// Relies on `Url::port`, on the URL that a text holds.
#[verifier::external_body]
fn port_of_url(url: &str) -> (r: Option<u16>)
    ensures
        r == url_port(url@),
{
    Url::parse(url).ok()?.port()
}

/// The server address with the credentials set in it, when both are given.
pub open spec fn credentialed_url(uri: Seq<char>, username: Seq<char>, password: Seq<char>) -> Option<Seq<char>> {
    match url_serialization(uri) {
        None => None,
        Some(base) => if username.len() > 0 && password.len() > 0 {
            match url_with_username(base, username) {
                None => None,
                Some(named) => url_with_password(named, password),
            }
        } else {
            Some(base)
        },
    }
}

/// The address of the server, or of one of its queues under `printers/`.
pub open spec fn cups_url(uri: Seq<char>, username: Seq<char>, password: Seq<char>, queue: Option<Seq<char>>) -> Option<Seq<char>> {
    match credentialed_url(uri, username, password) {
        None => None,
        Some(server) => match queue {
            None => Some(server),
            Some(q) => match url_join(server, "printers/"@) {
                None => None,
                Some(printers) => url_join(printers, q),
            },
        },
    }
}

/// The address of the print server (`queue_id` absent) or of one of its queues,
/// with the user name and password set in it when both are given.
pub fn build_cups_url(cups_settings: &Cups, queue_id: Option<&String>) -> (r: Result<String, super::queues::CupsError>)
    ensures
        match r {
            Ok(s) => cups_url(
                cups_settings.uri@,
                cups_settings.username@,
                cups_settings.password@,
                match queue_id {
                    Some(q) => Some(q@),
                    None => None,
                },
            ) == Some(s@),
            Err(e) => e == super::queues::CupsError::InvalidUri && cups_url(
                cups_settings.uri@,
                cups_settings.username@,
                cups_settings.password@,
                match queue_id {
                    Some(q) => Some(q@),
                    None => None,
                },
            ).is_none(),
        },
{
    let base = match parse_url(cups_settings.uri.as_str()) {
        Some(u) => u,
        None => return Err(super::queues::CupsError::InvalidUri),
    };
    let server = if !cups_settings.username.as_str().is_empty() && !cups_settings.password.as_str().is_empty() {
        let named = match set_url_username(base.as_str(), cups_settings.username.as_str()) {
            Some(u) => u,
            None => return Err(super::queues::CupsError::InvalidUri),
        };
        match set_url_password(named.as_str(), cups_settings.password.as_str()) {
            Some(u) => u,
            None => return Err(super::queues::CupsError::InvalidUri),
        }
    } else {
        base
    };
    match queue_id {
        None => Ok(server),
        Some(q) => {
            let printers = match join_url(server.as_str(), "printers/") {
                Some(u) => u,
                None => return Err(super::queues::CupsError::InvalidUri),
            };
            match join_url(printers.as_str(), q.as_str()) {
                Some(u) => Ok(u),
                None => Err(super::queues::CupsError::InvalidUri),
            }
        },
    }
}

/// The port that a display of the server names when its address names none.
pub const DEFAULT_IPP_PORT: u16 = 631;

/// The host and port of the server address, as `host:port`; the port is 631
/// where the address names none.
pub open spec fn server_display(uri: Seq<char>) -> Option<Seq<char>> {
    match url_host(uri) {
        None => None,
        Some(h) => Some(
            h + ":"@ + crate::json::decimal_text(
                match url_port(uri) {
                    Some(p) => p as nat,
                    None => 631,
                },
            ),
        ),
    }
}

/// The host and port of the server address, as `host:port`, or `None` when
/// the address is no URL or has no host.
pub fn server_display_address(uri: &str) -> (r: Option<String>)
    ensures
        opt_view(r) == server_display(uri@),
{
    let host = match host_of_url(uri) {
        Some(h) => h,
        None => return None,
    };
    let port = match port_of_url(uri) {
        Some(p) => p,
        None => DEFAULT_IPP_PORT,
    };
    let mut out = host;
    out.append(":");
    crate::json::push_decimal(&mut out, port as u64);
    Some(out)
}

} // verus!
