//! Client-side contract validation of request bodies before edge function calls.
use vstd::prelude::*;
use crate::text::{
    char_is_alnum, char_is_hex_digit, debug_repr, debug_string, decimal, eq_str, is_alnum,
    is_blank, is_hex_digit, join, join_strings, string_of, take_chars, take_string, trim,
    trim_chars, u64_to_string, views,
};

verus! {

pub const CLAIM_LIMIT_MIN: u32 = 1;
pub const CLAIM_LIMIT_MAX: u32 = 100;

/// Position of a dash in the 8-4-4-4-12 layout.
pub open spec fn uuid_dash_pos(i: int) -> bool {
    i == 8 || i == 13 || i == 18 || i == 23
}

/// RFC 4122-style layout: 36 characters, dashes at 8/13/18/23, hex digits elsewhere.
pub open spec fn uuid_shape(t: Seq<char>) -> bool {
    &&& t.len() == 36
    &&& forall|i: int|
        0 <= i < 36 ==> if uuid_dash_pos(i) {
            #[trigger] t[i] == '-'
        } else {
            is_hex_digit(t[i])
        }
}

/// Device ids: 8..=128 characters, each alphanumeric, `-` or `_`.
pub open spec fn device_id_char(c: char) -> bool {
    is_alnum(c) || c == '-' || c == '_'
}

pub open spec fn device_id_shape(t: Seq<char>) -> bool {
    &&& 8 <= t.len() <= 128
    &&& forall|i: int| 0 <= i < t.len() ==> device_id_char(#[trigger] t[i])
}

pub open spec fn contract_failure(problems: Seq<Seq<char>>) -> Seq<char> {
    "contract validation failed: "@ + join(problems, "; "@)
}

/// Outcome of a validation: `Ok` exactly when no problem was found.
pub open spec fn outcome(problems: Seq<Seq<char>>, r: Result<(), String>) -> bool {
    match r {
        Ok(_) => problems.len() == 0,
        Err(m) => problems.len() > 0 && m@ == contract_failure(problems),
    }
}

pub open spec fn business_id_problems(bid: Seq<char>, detailed: bool) -> Seq<Seq<char>> {
    if bid.len() == 0 {
        seq!["business_id is required"@]
    } else if !uuid_shape(bid) {
        if detailed {
            seq!["business_id must be a UUID (got "@ + debug_repr(take_chars(bid, 40)) + ")"@]
        } else {
            seq!["business_id must be a UUID"@]
        }
    } else {
        seq![]
    }
}

pub open spec fn device_id_problems(did: Seq<char>, detailed: bool) -> Seq<Seq<char>> {
    if did.len() == 0 {
        seq!["device_id is required"@]
    } else if !device_id_shape(did) {
        if detailed {
            seq!["device_id must be 8–128 chars (alphanumeric, -, _)"@]
        } else {
            seq!["device_id invalid"@]
        }
    } else {
        seq![]
    }
}

pub open spec fn limit_problems(limit: u32) -> Seq<Seq<char>> {
    if limit < CLAIM_LIMIT_MIN || limit > CLAIM_LIMIT_MAX {
        seq!["limit must be between 1 and 100 (got "@ + decimal(limit as nat) + ")"@]
    } else {
        seq![]
    }
}

pub open spec fn claim_batch_problems(b: Seq<char>, d: Seq<char>, limit: u32) -> Seq<Seq<char>> {
    business_id_problems(trim(b), true) + device_id_problems(trim(d), true) + limit_problems(
        limit,
    )
}

pub open spec fn heartbeat_problems(b: Seq<char>, d: Seq<char>) -> Seq<Seq<char>> {
    business_id_problems(trim(b), false) + device_id_problems(trim(d), false)
}

pub open spec fn queue_id_problems(qid: Seq<char>) -> Seq<Seq<char>> {
    if qid.len() == 0 {
        seq!["queue_id is required"@]
    } else if !uuid_shape(qid) {
        seq!["queue_id must be a UUID (got "@ + debug_repr(take_chars(qid, 40)) + ")"@]
    } else {
        seq![]
    }
}

pub open spec fn required_problems(v: Seq<char>, msg: Seq<char>) -> Seq<Seq<char>> {
    if trim(v).len() == 0 {
        seq![msg]
    } else {
        seq![]
    }
}

pub open spec fn status_problems(status: Seq<char>) -> Seq<Seq<char>> {
    let st = trim(status);
    if st == "ok"@ || st == "error"@ {
        seq![]
    } else {
        seq!["status must be ok or error (got "@ + debug_repr(st) + ")"@]
    }
}

pub open spec fn package_ack_problems(
    q: Seq<char>,
    status: Seq<char>,
    table: Seq<char>,
    id: Seq<char>,
) -> Seq<Seq<char>> {
    queue_id_problems(trim(q)) + required_problems(table, "source_table is required"@)
        + required_problems(id, "source_id is required"@) + status_problems(status)
}

fn uuid_shape_exec(t: &[char]) -> (b: bool)
    ensures
        b == uuid_shape(t@),
{
    if t.len() != 36 {
        return false;
    }
    let mut i: usize = 0;
    while i < 36
        invariant
            i <= 36,
            t.len() == 36,
            forall|k: int|
                0 <= k < i ==> if uuid_dash_pos(k) {
                    #[trigger] t@[k] == '-'
                } else {
                    is_hex_digit(t@[k])
                },
        decreases 36 - i,
    {
        let dash = i == 8 || i == 13 || i == 18 || i == 23;
        if dash {
            if t[i] != '-' {
                return false;
            }
        } else if !char_is_hex_digit(t[i]) {
            return false;
        }
        i = i + 1;
    }
    true
}

/// RFC 4122-style UUID (8-4-4-4-12 hex), case-insensitive, after trimming.
pub fn is_uuid(s: &str) -> (b: bool)
    ensures
        b == uuid_shape(trim(s@)),
{
    let t = trim_chars(s);
    uuid_shape_exec(t.as_slice())
}

fn device_id_shape_exec(t: &[char]) -> (b: bool)
    ensures
        b == device_id_shape(t@),
{
    if t.len() < 8 || t.len() > 128 {
        return false;
    }
    let mut i: usize = 0;
    while i < t.len()
        invariant
            i <= t.len(),
            forall|k: int| 0 <= k < i ==> device_id_char(#[trigger] t@[k]),
        decreases t.len() - i,
    {
        let c = t[i];
        if !(char_is_alnum(c) || c == '-' || c == '_') {
            return false;
        }
        i = i + 1;
    }
    true
}

/// Device ids: after trimming, 8..=128 characters of ASCII alphanumerics, `-` and `_`.
pub fn device_id_ok(s: &str) -> (b: bool)
    ensures
        b == device_id_shape(trim(s@)),
{
    let t = trim_chars(s);
    device_id_shape_exec(t.as_slice())
}

fn with_suffix(prefix: &str, middle: &str, suffix: &str) -> (r: String)
    ensures
        r@ == prefix@ + middle@ + suffix@,
{
    let mut m = String::from_str(prefix);
    m.append(middle);
    m.append(suffix);
    m
}

fn business_id_problem_list(bid: &[char], detailed: bool) -> (r: Vec<String>)
    ensures
        views(r@) == business_id_problems(bid@, detailed),
{
    let mut r: Vec<String> = Vec::new();
    if bid.len() == 0 {
        r.push(String::from_str("business_id is required"));
    } else if !uuid_shape_exec(bid) {
        if detailed {
            let shown = string_of(bid);
            let head = take_string(shown.as_str(), 40);
            let q = debug_string(head.as_str());
            r.push(with_suffix("business_id must be a UUID (got ", q.as_str(), ")"));
        } else {
            r.push(String::from_str("business_id must be a UUID"));
        }
    }
    assert(views(r@) =~= business_id_problems(bid@, detailed));
    r
}

fn device_id_problem_list(did: &[char], detailed: bool) -> (r: Vec<String>)
    ensures
        views(r@) == device_id_problems(did@, detailed),
{
    let mut r: Vec<String> = Vec::new();
    if did.len() == 0 {
        r.push(String::from_str("device_id is required"));
    } else if !device_id_shape_exec(did) {
        if detailed {
            r.push(String::from_str("device_id must be 8–128 chars (alphanumeric, -, _)"));
        } else {
            r.push(String::from_str("device_id invalid"));
        }
    }
    assert(views(r@) =~= device_id_problems(did@, detailed));
    r
}

fn append_all(dst: &mut Vec<String>, src: Vec<String>)
    ensures
        views(final(dst)@) == views(old(dst)@) + views(src@),
{
    let mut i: usize = 0;
    while i < src.len()
        invariant
            i <= src.len(),
            views(dst@) == views(old(dst)@) + views(src@).take(i as int),
        decreases src.len() - i,
    {
        let s = src[i].clone();
        assert(s@ == src@[i as int]@);
        let ghost prev = dst@;
        dst.push(s);
        assert(views(dst@) =~= views(prev).push(src@[i as int]@));
        assert(views(src@).take(i + 1) =~= views(src@).take(i as int).push(src@[i as int]@));
        assert(views(dst@) =~= views(old(dst)@) + views(src@).take(i + 1));
        i = i + 1;
    }
    assert(views(src@).take(src.len() as int) =~= views(src@));
}

fn finish(problems: Vec<String>) -> (r: Result<(), String>)
    ensures
        outcome(views(problems@), r),
{
    if problems.len() == 0 {
        Ok(())
    } else {
        let joined = join_strings(&problems, "; ");
        let mut m = String::from_str("contract validation failed: ");
        m.append(joined.as_str());
        Err(m)
    }
}

/// `ccc-package-claim-batch` POST body: business id, device id and batch limit.
pub fn validate_claim_batch_request(business_id: &str, device_id: &str, limit: u32) -> (r: Result<
    (),
    String,
>)
    ensures
        outcome(claim_batch_problems(business_id@, device_id@, limit), r),
{
    let bid = trim_chars(business_id);
    let did = trim_chars(device_id);
    let mut problems = business_id_problem_list(bid.as_slice(), true);
    append_all(&mut problems, device_id_problem_list(did.as_slice(), true));
    let mut lim: Vec<String> = Vec::new();
    if limit < CLAIM_LIMIT_MIN || limit > CLAIM_LIMIT_MAX {
        let n = u64_to_string(limit as u64);
        lim.push(with_suffix("limit must be between 1 and 100 (got ", n.as_str(), ")"));
    }
    assert(views(lim@) =~= limit_problems(limit));
    append_all(&mut problems, lim);
    finish(problems)
}

/// `uce-ingest` heartbeat: required identity fields.
pub fn validate_heartbeat_request(business_id: &str, device_id: &str) -> (r: Result<(), String>)
    ensures
        outcome(heartbeat_problems(business_id@, device_id@), r),
{
    let bid = trim_chars(business_id);
    let did = trim_chars(device_id);
    let mut problems = business_id_problem_list(bid.as_slice(), false);
    append_all(&mut problems, device_id_problem_list(did.as_slice(), false));
    finish(problems)
}

/// `ccc-package-ack` POST body.
pub fn validate_package_ack_request(
    queue_id: &str,
    status: &str,
    source_table: &str,
    source_id: &str,
) -> (r: Result<(), String>)
    ensures
        outcome(package_ack_problems(queue_id@, status@, source_table@, source_id@), r),
{
    let qid = trim_chars(queue_id);
    let mut problems: Vec<String> = Vec::new();
    if qid.len() == 0 {
        problems.push(String::from_str("queue_id is required"));
    } else if !uuid_shape_exec(qid.as_slice()) {
        let shown = string_of(qid.as_slice());
        let head = take_string(shown.as_str(), 40);
        let q = debug_string(head.as_str());
        problems.push(with_suffix("queue_id must be a UUID (got ", q.as_str(), ")"));
    }
    assert(views(problems@) =~= queue_id_problems(trim(queue_id@)));
    let mut rest: Vec<String> = Vec::new();
    if is_blank(source_table) {
        rest.push(String::from_str("source_table is required"));
    }
    assert(views(rest@) =~= required_problems(source_table@, "source_table is required"@));
    append_all(&mut problems, rest);
    let mut rest2: Vec<String> = Vec::new();
    if is_blank(source_id) {
        rest2.push(String::from_str("source_id is required"));
    }
    assert(views(rest2@) =~= required_problems(source_id@, "source_id is required"@));
    append_all(&mut problems, rest2);
    let st = trim_chars(status);
    let mut rest3: Vec<String> = Vec::new();
    if !(eq_str(st.as_slice(), "ok") || eq_str(st.as_slice(), "error")) {
        let shown = string_of(st.as_slice());
        let q = debug_string(shown.as_str());
        rest3.push(with_suffix("status must be ok or error (got ", q.as_str(), ")"));
    }
    assert(views(rest3@) =~= status_problems(status@));
    append_all(&mut problems, rest3);
    assert(views(problems@) =~= package_ack_problems(
        queue_id@,
        status@,
        source_table@,
        source_id@,
    ));
    finish(problems)
}

} // verus!
