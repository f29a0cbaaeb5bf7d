//! Posting the repair order seen in the foreground to the `uce-ro-status` edge function:
//! the checks before the request, its JSON body, and what its reply means. Sending it is
//! the caller's.
use vstd::prelude::*;
use crate::json::{entries_view, Json, JsonV};
use crate::text::{starts_with, trim};

verus! {

/// A checked request: the trimmed URL, the key sent as bearer token and `apikey`, and
/// the body.
pub struct RoStatusRequest {
    pub url: String,
    pub authorization: String,
    pub body: Json,
}

/// The body's entries, in key order: the trimmed business id, the device id, the trimmed
/// repair order number (also as `ro_number`) and the window title.
pub open spec fn ro_body(
    business_id: Seq<char>,
    repair_order_number: Seq<char>,
    window_title: Seq<char>,
    device_id: Seq<char>,
) -> Seq<(Seq<char>, JsonV)> {
    seq![
        ("business_id"@, JsonV::Str(trim(business_id))),
        ("device_id"@, JsonV::Str(device_id)),
        ("repair_order_number"@, JsonV::Str(trim(repair_order_number))),
        ("ro_number"@, JsonV::Str(trim(repair_order_number))),
        ("window_title"@, JsonV::Str(window_title)),
    ]
}

/// The request, or why it is refused: the URL must use HTTPS and a key must be given.
pub fn ro_status_request(
    url: &str,
    business_id: &str,
    repair_order_number: &str,
    window_title: &str,
    device_id: &str,
    authorization: &str,
) -> (r: Result<RoStatusRequest, String>)
    ensures
        match r {
            Ok(q) => {
                &&& starts_with(trim(url@), "https://"@)
                &&& trim(authorization@).len() > 0
                &&& q.url@ == trim(url@)
                &&& q.authorization@ == trim(authorization@)
                &&& (q.body@ matches JsonV::Object(o) && entries_view(o@) == ro_body(
                    business_id@,
                    repair_order_number@,
                    window_title@,
                    device_id@,
                ))
            },
            Err(e) => if !starts_with(trim(url@), "https://"@) {
                e@ == "uce-ro-status URL must use HTTPS"@
            } else {
                &&& trim(authorization@).len() == 0
                &&& e@
                    == "Missing Supabase anon key (set VITE_SUPABASE_ANON_KEY or VITE_UCE_SUPABASE_ANON_KEY)"@
            },
        },
{
    let u = crate::text::trim_string(url);
    let uv = crate::text::chars_of(u.as_str());
    if !crate::text::starts_with_str(uv.as_slice(), "https://") {
        return Err(String::from_str("uce-ro-status URL must use HTTPS"));
    }
    let auth = crate::text::trim_string(authorization);
    if auth.as_str().is_empty() {
        return Err(
            String::from_str(
                "Missing Supabase anon key (set VITE_SUPABASE_ANON_KEY or VITE_UCE_SUPABASE_ANON_KEY)",
            ),
        );
    }
    let ro = crate::text::trim_string(repair_order_number);
    let mut o: Vec<(String, Json)> = Vec::new();
    o.push((String::from_str("business_id"), Json::Str(crate::text::trim_string(business_id))));
    o.push((String::from_str("device_id"), Json::Str(String::from_str(device_id))));
    o.push((String::from_str("repair_order_number"), Json::Str(ro.clone())));
    o.push((String::from_str("ro_number"), Json::Str(ro)));
    o.push((String::from_str("window_title"), Json::Str(String::from_str(window_title))));
    assert(entries_view(o@) =~= ro_body(business_id@, repair_order_number@, window_title@, device_id@));
    Ok(RoStatusRequest { url: u, authorization: auth, body: Json::Object(o) })
}

/// The reply: its text on success, else `RO status HTTP {status}: {text}`.
pub fn ro_status_reply(success: bool, status: &str, text: String) -> (r: Result<String, String>)
    ensures
        success ==> (r matches Ok(t) && t@ == text@),
        !success ==> (r matches Err(e) && e@ == "RO status HTTP "@ + status@ + ": "@ + text@),
{
    if success {
        Ok(text)
    } else {
        let mut e = String::from_str("RO status HTTP ");
        e.append(status);
        e.append(": ");
        e.append(text.as_str());
        Err(e)
    }
}

/// The error when the request could not be sent.
pub fn ro_status_send_error(e: &str) -> (r: String)
    ensures
        r@ == "RO status request failed: "@ + e@,
{
    let mut m = String::from_str("RO status request failed: ");
    m.append(e);
    m
}

} // verus!
