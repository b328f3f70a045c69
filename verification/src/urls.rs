//! The addresses the client talks to, built from the page's location.
use vstd::prelude::*;
use vstd::string::StringExecFns;

verus! {

/// The page's origin: its protocol (with the colon), two slashes, its host.
pub fn origin(protocol: &str, host: &str) -> (r: String)
    ensures
        r@ == protocol@ + "//"@ + host@,
{
    let mut r = String::from_str(protocol);
    r.append("//");
    r.append(host);
    r
}

/// The WebSocket protocol that goes with a page protocol: secure for a
/// secure page, plain otherwise.
pub fn websocket_protocol(protocol: &String) -> (r: &'static str)
    ensures
        r@ == (if protocol@ == "https:"@ { "wss:"@ } else { "ws:"@ }),
{
    let https = String::from_str("https:");
    if *protocol == https {
        "wss:"
    } else {
        "ws:"
    }
}

/// The WebSocket origin of the page: the matching WebSocket protocol, two
/// slashes, the page's host.
pub fn websocket_origin(protocol: &String, host: &str) -> (r: String)
    ensures
        r@ == (if protocol@ == "https:"@ { "wss:"@ } else { "ws:"@ }) + "//"@ + host@,
{
    origin(websocket_protocol(protocol), host)
}

/// The address of the session socket, under a WebSocket origin.
pub fn session_url(websocket_origin: String) -> (r: String)
    ensures
        r@ == websocket_origin@ + "/session"@,
{
    websocket_origin.concat("/session")
}

/// The address a file named `filename` is uploaded to, under an origin.
pub fn upload_url(origin: String, filename: &str) -> (r: String)
    ensures
        r@ == origin@ + "/_upload/"@ + filename@,
{
    let mut r = origin.concat("/_upload/");
    r.append(filename);
    r
}

/// The type an upload is sent as: the file's type, or a generic byte stream
/// when the browser does not know it.
pub fn upload_kind(kind: &str) -> (r: String)
    ensures
        r@ == (if kind@.len() == 0 { "application/octet-stream"@ } else { kind@ }),
{
    if kind.is_empty() {
        String::from_str("application/octet-stream")
    } else {
        String::from_str(kind)
    }
}

} // verus!
