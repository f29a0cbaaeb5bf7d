//! The local `whoami` probe on `127.0.0.1`: which requests it answers and the HTTP reply
//! it writes. Listening, reading the socket and serializing the `whoami` JSON are the
//! caller's.
use vstd::prelude::*;
use crate::text::{byte_count, decimal, starts_with};

verus! {

/// The probe answers `GET /whoami` and `GET /`.
pub open spec fn probe_request_ok(req: Seq<char>) -> bool {
    starts_with(req, "GET /whoami"@) || starts_with(req, "GET / "@) || starts_with(req, "GET / HTTP"@)
}

/// The body of the reply to any other request.
pub open spec fn not_found_body() -> Seq<char> {
    "{\"ok\":false,\"error\":\"use GET /whoami\"}"@
}

/// An HTTP/1.1 reply with a JSON body and its length in bytes.
pub open spec fn http_json(status_line: Seq<char>, cors: bool, body: Seq<char>) -> Seq<char> {
    "HTTP/1.1 "@ + status_line + "\r\nContent-Type: application/json\r\n"@ + (if cors {
        "Access-Control-Allow-Origin: *\r\n"@
    } else {
        Seq::empty()
    }) + "Content-Length: "@ + decimal(byte_count(body) as nat) + "\r\nConnection: close\r\n\r\n"@
        + body
}

fn http_json_exec(status_line: &str, cors: bool, body: &str) -> (r: String)
    ensures
        r@ == http_json(status_line@, cors, body@),
{
    let mut r = String::from_str("HTTP/1.1 ");
    r.append(status_line);
    r.append("\r\nContent-Type: application/json\r\n");
    if cors {
        r.append("Access-Control-Allow-Origin: *\r\n");
    }
    r.append("Content-Length: ");
    let n = crate::text::byte_len_exec(body);
    let d = crate::text::u64_to_string(n as u64);
    r.append(d.as_str());
    r.append("\r\nConnection: close\r\n\r\n");
    r.append(body);
    r
}

/// The reply to a request: `404 Not Found` with a hint unless it asks for `whoami`;
/// otherwise `200 OK` with the `whoami` body, readable from any origin.
pub fn probe_response(request: &str, whoami_body: &str) -> (r: String)
    ensures
        probe_request_ok(request@) ==> r@ == http_json("200 OK"@, true, whoami_body@),
        !probe_request_ok(request@) ==> r@ == http_json("404 Not Found"@, false, not_found_body()),
{
    let v = crate::text::chars_of(request);
    let ok = crate::text::starts_with_str(v.as_slice(), "GET /whoami") || crate::text::starts_with_str(
        v.as_slice(),
        "GET / ",
    ) || crate::text::starts_with_str(v.as_slice(), "GET / HTTP");
    if ok {
        http_json_exec("200 OK", true, whoami_body)
    } else {
        http_json_exec("404 Not Found", false, "{\"ok\":false,\"error\":\"use GET /whoami\"}")
    }
}

} // verus!
