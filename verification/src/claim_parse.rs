//! Decoding a `ccc-package-claim-batch` response. The edge may send snake_case or
//! camelCase keys, nest a job's fields under `mirror_file` / `payload` / …, and leave the
//! acknowledgement identity (`source_table`, `source_id`) to be found elsewhere in the
//! job or in the batch. Each job object is first normalized to one flat snake_case shape,
//! then decoded into a `ClaimItem`.
use vstd::prelude::*;
use crate::json::{
    json_text_value, parse_json_text,
    contains_key, entries_view, find_key, get, has_key, insert, insert_if_absent,
    insert_key, or_insert, remove, remove_key, scalar_string, scalar_text, Entries, Json, JsonV,
};
use crate::ccc_package_sync::{opt_view, ClaimItem};
use crate::text::{
    chars_of, debug_repr, debug_string, decimal, eq_str, has_sub, join, join_strings, u64_to_string,
};

verus! {

/// The snake_case name the job decoder reads for a camelCase key; other keys as they are.
pub open spec fn snake_key(k: Seq<char>) -> Seq<char> {
    if k == "signedUrl"@ {
        "signed_url"@
    } else if k == "queueId"@ {
        "queue_id"@
    } else if k == "actionType"@ {
        "action_type"@
    } else if k == "roFolder"@ {
        "ro_folder"@
    } else if k == "roFolderName"@ {
        "ro_folder_name"@
    } else if k == "subFolder"@ {
        "sub_folder"@
    } else if k == "filenameHint"@ {
        "filename_hint"@
    } else if k == "targetPathHint"@ {
        "target_path_hint"@
    } else if k == "sourceTable"@ {
        "source_table"@
    } else if k == "sourceId"@ {
        "source_id"@
    } else {
        k
    }
}

/// Renaming keys to snake_case twice is the same as once: a snake_case key is read as
/// it is.
pub proof fn law_snake_key_idempotent(k: Seq<char>)
    ensures
        snake_key(snake_key(k)) == snake_key(k),
{
    reveal_strlit("signedUrl");
    reveal_strlit("signed_url");
    reveal_strlit("queueId");
    reveal_strlit("queue_id");
    reveal_strlit("actionType");
    reveal_strlit("action_type");
    reveal_strlit("roFolder");
    reveal_strlit("ro_folder");
    reveal_strlit("roFolderName");
    reveal_strlit("ro_folder_name");
    reveal_strlit("subFolder");
    reveal_strlit("sub_folder");
    reveal_strlit("filenameHint");
    reveal_strlit("filename_hint");
    reveal_strlit("targetPathHint");
    reveal_strlit("target_path_hint");
    reveal_strlit("sourceTable");
    reveal_strlit("source_table");
    reveal_strlit("sourceId");
    reveal_strlit("source_id");
    let s = snake_key(k);
    if s != k {
        if s == "signed_url"@ {
            assert(s[6] == '_');
        } else if s == "queue_id"@ {
            assert(s[5] == '_');
        } else if s == "action_type"@ {
            assert(s[6] == '_');
        } else if s == "ro_folder"@ {
            assert(s[2] == '_');
        } else if s == "ro_folder_name"@ {
            assert(s[2] == '_');
        } else if s == "sub_folder"@ {
            assert(s[3] == '_');
        } else if s == "filename_hint"@ {
            assert(s[8] == '_');
        } else if s == "target_path_hint"@ {
            assert(s[6] == '_');
        } else if s == "source_table"@ {
            assert(s[6] == '_');
        } else {
            assert(s == "source_id"@);
            assert(s[6] == '_');
        }
    }
}

pub fn camel_to_snake_field(key: &str) -> (r: String)
    ensures
        r@ == snake_key(key@),
{
    let v = chars_of(key);
    let s = v.as_slice();
    if eq_str(s, "signedUrl") {
        String::from_str("signed_url")
    } else if eq_str(s, "queueId") {
        String::from_str("queue_id")
    } else if eq_str(s, "actionType") {
        String::from_str("action_type")
    } else if eq_str(s, "roFolder") {
        String::from_str("ro_folder")
    } else if eq_str(s, "roFolderName") {
        String::from_str("ro_folder_name")
    } else if eq_str(s, "subFolder") {
        String::from_str("sub_folder")
    } else if eq_str(s, "filenameHint") {
        String::from_str("filename_hint")
    } else if eq_str(s, "targetPathHint") {
        String::from_str("target_path_hint")
    } else if eq_str(s, "sourceTable") {
        String::from_str("source_table")
    } else if eq_str(s, "sourceId") {
        String::from_str("source_id")
    } else {
        String::from_str(key)
    }
}

/// Acknowledgement identity given once for the whole batch.
pub struct BatchAckDefaults {
    pub source_table: Option<String>,
    pub source_id: Option<String>,
}

pub open spec fn opt_text(o: Option<String>) -> Option<Seq<char>> {
    match o {
        Some(s) => Some(s@),
        None => None,
    }
}

/// The first of two keys that is present.
pub open spec fn first_of2(m: Entries, a: Seq<char>, b: Seq<char>) -> Option<JsonV> {
    match get(m, a) {
        Some(x) => Some(x),
        None => get(m, b),
    }
}

/// The first of three keys that is present.
pub open spec fn first_of3(m: Entries, a: Seq<char>, b: Seq<char>, c: Seq<char>) -> Option<JsonV> {
    match get(m, a) {
        Some(x) => Some(x),
        None => first_of2(m, b, c),
    }
}

/// The index of the first of two keys that is present.
fn first_of2_index(m: &Vec<(String, Json)>, a: &str, b: &str) -> (r: Option<usize>)
    ensures
        match r {
            Some(i) => i < m@.len() && first_of2(entries_view(m@), a@, b@) == Some(m@[i as int].1@),
            None => first_of2(entries_view(m@), a@, b@) is None,
        },
{
    match find_key(m, a) {
        Some(i) => Some(i),
        None => find_key(m, b),
    }
}

pub open spec fn scalar_of(o: Option<JsonV>) -> Option<Seq<char>> {
    match o {
        Some(x) => scalar_text(x),
        None => None,
    }
}

/// The batch identity: top-level `source_table`/`sourceTable` and `source_id`/`sourceId`
/// of an object response, each as text when it is a scalar.
pub open spec fn batch_defaults(root: JsonV) -> (Option<Seq<char>>, Option<Seq<char>>) {
    match root {
        JsonV::Object(o) => {
            let m = entries_view(o@);
            (
                scalar_of(first_of2(m, "source_table"@, "sourceTable"@)),
                scalar_of(first_of2(m, "source_id"@, "sourceId"@)),
            )
        },
        _ => (None, None),
    }
}

pub fn batch_ack_defaults(root: &Json) -> (r: BatchAckDefaults)
    ensures
        (opt_text(r.source_table), opt_text(r.source_id)) == batch_defaults(root@),
{
    match root {
        Json::Object(o) => {
            let t = match first_of2_index(o, "source_table", "sourceTable") {
                Some(i) => scalar_string(&o[i].1),
                None => None,
            };
            let id = match first_of2_index(o, "source_id", "sourceId") {
                Some(i) => scalar_string(&o[i].1),
                None => None,
            };
            BatchAckDefaults { source_table: t, source_id: id }
        },
        _ => BatchAckDefaults { source_table: None, source_id: None },
    }
}

// ---------------------------------------------------------------------------
// Normalization, stage by stage
// ---------------------------------------------------------------------------

/// `ns` merged into `m` in order, keeping keys `m` already has.
pub open spec fn merge_entries(m: Entries, ns: Entries) -> Entries
    decreases ns.len(),
{
    if ns.len() == 0 {
        m
    } else {
        or_insert(merge_entries(m, ns.drop_last()), ns.last().0, ns.last().1)
    }
}

/// Key `key` taken out; when it held an object, that object's entries merged in.
pub open spec fn unnest(m: Entries, key: Seq<char>) -> Entries {
    match get(m, key) {
        Some(JsonV::Object(n)) => merge_entries(remove(m, key), entries_view(n@)),
        Some(_) => remove(m, key),
        None => m,
    }
}

/// Fields nested under `mirror_file`, `payload`, `job`, `data`, `mirror`, `ack` lifted.
pub open spec fn unnested(m: Entries) -> Entries {
    unnest(
        unnest(
            unnest(unnest(unnest(unnest(m, "mirror_file"@), "payload"@), "job"@), "data"@),
            "mirror"@,
        ),
        "ack"@,
    )
}

pub open spec fn is_identity_key(k: Seq<char>) -> bool {
    k == "source_id"@ || k == "queue_id"@ || k == "source_table"@
}

/// A scalar as a string value; other values as they are.
pub open spec fn as_text_value(v: JsonV) -> JsonV {
    match scalar_text(v) {
        Some(t) => JsonV::Str(t),
        None => v,
    }
}

/// Every key renamed to snake_case, in order (a later key wins a clash); the identity
/// fields turned into strings.
pub open spec fn renamed(m: Entries) -> Entries
    decreases m.len(),
{
    if m.len() == 0 {
        Seq::empty()
    } else {
        let k = snake_key(m.last().0);
        let v = if is_identity_key(k) {
            as_text_value(m.last().1)
        } else {
            m.last().1
        };
        insert(renamed(m.drop_last()), k, v)
    }
}

/// Key `from` moved to `to` unless `to` is already there (then `from` is dropped).
pub open spec fn alias(m: Entries, from: Seq<char>, to: Seq<char>) -> Entries {
    match get(m, from) {
        Some(v) => or_insert(remove(m, from), to, v),
        None => m,
    }
}

pub open spec fn aliased(m: Entries) -> Entries {
    alias(alias(m, "filename_hint"@, "filename"@), "ro_folder"@, "ro_folder_name"@)
}

/// `to` set to the text of `v` when `to` is absent and `v` is a scalar.
pub open spec fn set_text_if_absent(m: Entries, to: Seq<char>, v: Option<JsonV>) -> Entries {
    if has_key(m, to) {
        m
    } else {
        match scalar_of(v) {
            Some(t) => insert(m, to, JsonV::Str(t)),
            None => m,
        }
    }
}

/// A `source: { table, id }` object spread into `source_table` / `source_id`; a
/// `source` that is not an object is dropped.
pub open spec fn from_source_object(m: Entries) -> Entries {
    match get(m, "source"@) {
        Some(JsonV::Object(src)) => {
            let s = entries_view(src@);
            let m1 = remove(m, "source"@);
            let m2 = set_text_if_absent(
                m1,
                "source_table"@,
                first_of3(s, "table"@, "source_table"@, "sourceTable"@),
            );
            set_text_if_absent(m2, "source_id"@, first_of3(s, "id"@, "source_id"@, "sourceId"@))
        },
        Some(_) => remove(m, "source"@),
        None => m,
    }
}

/// Unless `to` is present: key `from` taken out and, when a scalar, stored as `to`.
pub open spec fn take_as(m: Entries, from: Seq<char>, to: Seq<char>) -> Entries {
    if has_key(m, to) {
        m
    } else {
        match get(m, from) {
            Some(v) => match scalar_text(v) {
                Some(t) => insert(remove(m, from), to, JsonV::Str(t)),
                None => remove(m, from),
            },
            None => m,
        }
    }
}

pub open spec fn table_aliases(m: Entries) -> Entries {
    take_as(
        take_as(
            take_as(take_as(take_as(m, "source"@, "source_table"@), "table"@, "source_table"@), "entity_table"@, "source_table"@),
            "entity"@,
            "source_table"@,
        ),
        "source_type"@,
        "source_table"@,
    )
}

/// Unless `to` is present: the text of scalar key `from` copied to `to`.
pub open spec fn copy_as(m: Entries, from: Seq<char>, to: Seq<char>) -> Entries {
    set_text_if_absent(m, to, get(m, from))
}

pub open spec fn id_aliases(m: Entries) -> Entries {
    copy_as(
        copy_as(
            copy_as(copy_as(copy_as(m, "document_id"@, "source_id"@), "business_document_id"@, "source_id"@), "photo_id"@, "source_id"@),
            "row_id"@,
            "source_id"@,
        ),
        "entity_id"@,
        "source_id"@,
    )
}

/// A bare `id` taken as `source_id` when it differs from the queue id.
pub open spec fn bare_id(m: Entries) -> Entries {
    if has_key(m, "source_id"@) {
        m
    } else {
        match get(m, "id"@) {
            Some(idv) => {
                let ids = scalar_text(idv);
                if ids != scalar_of(get(m, "queue_id"@)) {
                    match ids {
                        Some(s) => insert(m, "source_id"@, JsonV::Str(s)),
                        None => m,
                    }
                } else {
                    m
                }
            },
            None => m,
        }
    }
}

/// `to` set to the string `o` when absent and `o` is given.
pub open spec fn set_str_if_absent(m: Entries, to: Seq<char>, o: Option<Seq<char>>) -> Entries {
    if has_key(m, to) {
        m
    } else {
        match o {
            Some(t) => insert(m, to, JsonV::Str(t)),
            None => m,
        }
    }
}

/// The job's action: a string `action_type`, else `mirror_file`.
pub open spec fn action_text(m: Entries) -> Seq<char> {
    match get(m, "action_type"@) {
        Some(JsonV::Str(a)) => a,
        _ => "mirror_file"@,
    }
}

/// The table inferred for jobs still without one: `business_documents` for a mirror job
/// with a signed URL, `business_intake_links` for a folder delete.
pub open spec fn inferred_table(m: Entries) -> Entries {
    let a = action_text(m);
    let m1 = if a == "mirror_file"@ && !has_key(m, "source_table"@) && has_key(m, "signed_url"@) {
        insert(m, "source_table"@, JsonV::Str("business_documents"@))
    } else {
        m
    };
    if a == "delete_folder"@ && !has_key(m1, "source_table"@) {
        insert(m1, "source_table"@, JsonV::Str("business_intake_links"@))
    } else {
        m1
    }
}

/// Fills in the acknowledgement identity from the places the edge may put it.
pub open spec fn identity_defaults(m: Entries, batch: (Option<Seq<char>>, Option<Seq<char>>)) -> Entries {
    let m1 = bare_id(id_aliases(table_aliases(from_source_object(m))));
    let m2 = set_str_if_absent(set_str_if_absent(m1, "source_table"@, batch.0), "source_id"@, batch.1);
    inferred_table(m2)
}

/// A job object in the one flat snake_case shape the decoder reads.
pub open spec fn normalized(m: Entries, batch: (Option<Seq<char>>, Option<Seq<char>>)) -> Entries {
    identity_defaults(aliased(renamed(unnested(m))), batch)
}

fn merge_into(m: &mut Vec<(String, Json)>, ns: Vec<(String, Json)>)
    ensures
        entries_view(final(m)@) == merge_entries(entries_view(old(m)@), entries_view(ns@)),
{
    let ghost n0 = entries_view(ns@);
    let ghost m0 = entries_view(m@);
    let mut rest = ns;
    let ghost mut k: int = 0;
    while rest.len() > 0
        invariant
            0 <= k <= n0.len(),
            rest@.len() == n0.len() - k,
            entries_view(rest@) == n0.skip(k),
            entries_view(m@) == merge_entries(m0, n0.take(k)),
        decreases rest.len(),
    {
        let ghost before = rest@;
        let (key, val) = rest.remove(0);
        assert(entries_view(before)[0] == (key@, val@));
        assert(entries_view(rest@) =~= entries_view(before).drop_first());
        assert(entries_view(rest@) =~= n0.skip(k + 1));
        assert(n0.take(k + 1).drop_last() =~= n0.take(k));
        assert(n0.take(k + 1).last() == (key@, val@));
        insert_if_absent(m, key, val);
        proof {
            k = k + 1;
        }
    }
    assert(n0.take(n0.len() as int) =~= n0);
}

fn unnest_key(m: &mut Vec<(String, Json)>, key: &str)
    ensures
        entries_view(final(m)@) == unnest(entries_view(old(m)@), key@),
{
    match remove_key(m, key) {
        Some(Json::Object(nested)) => merge_into(m, nested),
        _ => {},
    }
}

fn rename_all(obj: Vec<(String, Json)>) -> (out: Vec<(String, Json)>)
    ensures
        entries_view(out@) == renamed(entries_view(obj@)),
{
    let ghost n0 = entries_view(obj@);
    let mut rest = obj;
    let mut out: Vec<(String, Json)> = Vec::new();
    let ghost mut k: int = 0;
    assert(entries_view(out@) =~= renamed(n0.take(0)));
    while rest.len() > 0
        invariant
            0 <= k <= n0.len(),
            rest@.len() == n0.len() - k,
            entries_view(rest@) == n0.skip(k),
            entries_view(out@) == renamed(n0.take(k)),
        decreases rest.len(),
    {
        let ghost before = rest@;
        let (key, val) = rest.remove(0);
        assert(entries_view(before)[0] == (key@, val@));
        assert(entries_view(rest@) =~= entries_view(before).drop_first());
        assert(entries_view(rest@) =~= n0.skip(k + 1));
        assert(n0.take(k + 1).drop_last() =~= n0.take(k));
        assert(n0.take(k + 1).last() == (key@, val@));
        let snake = camel_to_snake_field(key.as_str());
        let sv = chars_of(snake.as_str());
        let is_id = eq_str(sv.as_slice(), "source_id") || eq_str(sv.as_slice(), "queue_id")
            || eq_str(sv.as_slice(), "source_table");
        let v = if is_id {
            match scalar_string(&val) {
                Some(t) => Json::Str(t),
                None => val,
            }
        } else {
            val
        };
        insert_key(&mut out, snake, v);
        proof {
            k = k + 1;
        }
    }
    assert(n0.take(n0.len() as int) =~= n0);
    out
}

fn alias_key(m: &mut Vec<(String, Json)>, from: &str, to: &str)
    ensures
        entries_view(final(m)@) == alias(entries_view(old(m)@), from@, to@),
{
    match remove_key(m, from) {
        Some(v) => insert_if_absent(m, String::from_str(to), v),
        None => {},
    }
}

/// The text of the first present key among `keys` when it is a scalar.
fn scalar_of_first(m: &Vec<(String, Json)>, a: &str, b: &str, c: &str) -> (r: Option<String>)
    ensures
        opt_text(r) == scalar_of(first_of3(entries_view(m@), a@, b@, c@)),
{
    match find_key(m, a) {
        Some(i) => scalar_string(&m[i].1),
        None => match first_of2_index(m, b, c) {
            Some(i) => scalar_string(&m[i].1),
            None => None,
        },
    }
}

fn set_text_when_absent(m: &mut Vec<(String, Json)>, to: &str, t: Option<String>)
    ensures
        entries_view(final(m)@) == set_str_if_absent(entries_view(old(m)@), to@, opt_text(t)),
{
    if !contains_key(m, to) {
        match t {
            Some(s) => insert_key(m, String::from_str(to), Json::Str(s)),
            None => {},
        }
    }
}

fn spread_source_object(m: &mut Vec<(String, Json)>)
    ensures
        entries_view(final(m)@) == from_source_object(entries_view(old(m)@)),
{
    match remove_key(m, "source") {
        Some(Json::Object(src)) => {
            let ghost m1 = entries_view(m@);
            if !contains_key(m, "source_table") {
                let t = scalar_of_first(&src, "table", "source_table", "sourceTable");
                set_text_when_absent(m, "source_table", t);
            }
            if !contains_key(m, "source_id") {
                let t = scalar_of_first(&src, "id", "source_id", "sourceId");
                set_text_when_absent(m, "source_id", t);
            }
        },
        _ => {},
    }
}

fn take_key_as(m: &mut Vec<(String, Json)>, from: &str, to: &str)
    ensures
        entries_view(final(m)@) == take_as(entries_view(old(m)@), from@, to@),
{
    if !contains_key(m, to) {
        match remove_key(m, from) {
            Some(v) => match scalar_string(&v) {
                Some(s) => insert_key(m, String::from_str(to), Json::Str(s)),
                None => {},
            },
            None => {},
        }
    }
}

fn copy_key_as(m: &mut Vec<(String, Json)>, from: &str, to: &str)
    ensures
        entries_view(final(m)@) == copy_as(entries_view(old(m)@), from@, to@),
{
    if !contains_key(m, to) {
        let t = match find_key(m, from) {
            Some(i) => scalar_string(&m[i].1),
            None => None,
        };
        set_text_when_absent(m, to, t);
    }
}

fn take_bare_id(m: &mut Vec<(String, Json)>)
    ensures
        entries_view(final(m)@) == bare_id(entries_view(old(m)@)),
{
    if !contains_key(m, "source_id") {
        match find_key(m, "id") {
            Some(i) => {
                let ids = scalar_string(&m[i].1);
                let q = match find_key(m, "queue_id") {
                    Some(j) => scalar_string(&m[j].1),
                    None => None,
                };
                let same = match (&ids, &q) {
                    (Some(a), Some(b)) => {
                        let av = chars_of(a.as_str());
                        let bv = chars_of(b.as_str());
                        crate::text::chars_eq(av.as_slice(), bv.as_slice())
                    },
                    (None, None) => true,
                    _ => false,
                };
                if !same {
                    match ids {
                        Some(s) => insert_key(m, String::from_str("source_id"), Json::Str(s)),
                        None => {},
                    }
                }
            },
            None => {},
        }
    }
}

fn infer_table(m: &mut Vec<(String, Json)>)
    ensures
        entries_view(final(m)@) == inferred_table(entries_view(old(m)@)),
{
    let action: Vec<char> = match find_key(m, "action_type") {
        Some(i) => match &m[i].1 {
            Json::Str(a) => chars_of(a.as_str()),
            _ => chars_of("mirror_file"),
        },
        None => chars_of("mirror_file"),
    };
    let is_mirror = eq_str(action.as_slice(), "mirror_file");
    let has_signed = contains_key(m, "signed_url");
    if is_mirror && !contains_key(m, "source_table") && has_signed {
        insert_key(m, String::from_str("source_table"), Json::Str(String::from_str("business_documents")));
    }
    if eq_str(action.as_slice(), "delete_folder") && !contains_key(m, "source_table") {
        insert_key(
            m,
            String::from_str("source_table"),
            Json::Str(String::from_str("business_intake_links")),
        );
    }
}

/// Fills in `source_table` / `source_id` (see `identity_defaults`).
pub fn apply_ack_identity_defaults(out: &mut Vec<(String, Json)>, batch: &BatchAckDefaults)
    ensures
        entries_view(final(out)@) == identity_defaults(
            entries_view(old(out)@),
            (opt_text(batch.source_table), opt_text(batch.source_id)),
        ),
{
    spread_source_object(out);
    take_key_as(out, "source", "source_table");
    take_key_as(out, "table", "source_table");
    take_key_as(out, "entity_table", "source_table");
    take_key_as(out, "entity", "source_table");
    take_key_as(out, "source_type", "source_table");
    copy_key_as(out, "document_id", "source_id");
    copy_key_as(out, "business_document_id", "source_id");
    copy_key_as(out, "photo_id", "source_id");
    copy_key_as(out, "row_id", "source_id");
    copy_key_as(out, "entity_id", "source_id");
    take_bare_id(out);
    let t = match &batch.source_table {
        Some(s) => Some(s.clone()),
        None => None,
    };
    set_text_when_absent(out, "source_table", t);
    let id = match &batch.source_id {
        Some(s) => Some(s.clone()),
        None => None,
    };
    set_text_when_absent(out, "source_id", id);
    infer_table(out);
}

/// A job in the flat snake_case shape (see `normalized`); anything but an object is
/// returned as it is.
pub fn normalize_claim_item_value(v: Json, batch: &BatchAckDefaults) -> (r: Json)
    ensures
        match v@ {
            JsonV::Object(o) => r@ matches JsonV::Object(out) && entries_view(out@) == normalized(
                entries_view(o@),
                (opt_text(batch.source_table), opt_text(batch.source_id)),
            ),
            _ => r == v,
        },
{
    let mut obj = match v {
        Json::Object(o) => o,
        other => {
            return other;
        },
    };
    unnest_key(&mut obj, "mirror_file");
    unnest_key(&mut obj, "payload");
    unnest_key(&mut obj, "job");
    unnest_key(&mut obj, "data");
    unnest_key(&mut obj, "mirror");
    unnest_key(&mut obj, "ack");
    let mut out = rename_all(obj);
    alias_key(&mut out, "filename_hint", "filename");
    alias_key(&mut out, "ro_folder", "ro_folder_name");
    apply_ack_identity_defaults(&mut out, batch);
    Json::Object(out)
}

// ---------------------------------------------------------------------------
// Decoding a job into a `ClaimItem`
// ---------------------------------------------------------------------------

/// A claimed job as plain values.
pub struct ClaimFields {
    pub queue_id: Seq<char>,
    pub action_type: Option<Seq<char>>,
    pub ro_folder_name: Option<Seq<char>>,
    pub sub_folder: Option<Seq<char>>,
    pub bucket: Option<Seq<char>>,
    pub signed_url: Option<Seq<char>>,
    pub filename: Option<Seq<char>>,
    pub target_path_hint: Option<Seq<char>>,
    pub source_table: Seq<char>,
    pub source_id: Seq<char>,
}

pub open spec fn fields_of(item: ClaimItem) -> ClaimFields {
    ClaimFields {
        queue_id: item.queue_id@,
        action_type: opt_view(item.action_type),
        ro_folder_name: opt_view(item.ro_folder_name),
        sub_folder: opt_view(item.sub_folder),
        bucket: opt_view(item.bucket),
        signed_url: opt_view(item.signed_url),
        filename: opt_view(item.filename),
        target_path_hint: opt_view(item.target_path_hint),
        source_table: item.source_table@,
        source_id: item.source_id@,
    }
}

pub open spec fn required_key(k: Seq<char>) -> bool {
    k == "queue_id"@ || k == "source_table"@ || k == "source_id"@
}

pub open spec fn optional_key(k: Seq<char>) -> bool {
    k == "action_type"@ || k == "ro_folder_name"@ || k == "sub_folder"@ || k == "bucket"@ || k
        == "signed_url"@ || k == "filename"@ || k == "target_path_hint"@
}

/// A number text with no fraction or exponent.
pub open spec fn integer_text(t: Seq<char>) -> bool {
    forall|i: int| 0 <= i < t.len() ==> #[trigger] t[i] != '.' && t[i] != 'e' && t[i] != 'E'
}

/// How a value of the wrong type is described in a decode error.
pub open spec fn unexpected(v: JsonV) -> Seq<char> {
    match v {
        JsonV::Null => "null"@,
        JsonV::Bool(b) => "boolean `"@ + (if b {
            "true"@
        } else {
            "false"@
        }) + "`"@,
        JsonV::Number(t) => if integer_text(t) {
            "integer `"@ + t + "`"@
        } else {
            "floating point `"@ + t + "`"@
        },
        JsonV::Str(s) => "string "@ + debug_repr(s),
        JsonV::Array(_) => "sequence"@,
        JsonV::Object(_) => "map"@,
    }
}

pub open spec fn type_error(v: JsonV) -> Seq<char> {
    "invalid type: "@ + unexpected(v) + ", expected a string"@
}

/// The error an entry raises: a field of the job whose value is not a string (or, for
/// an optional field, not a string or null).
pub open spec fn entry_error(p: (Seq<char>, JsonV)) -> Option<Seq<char>> {
    if required_key(p.0) {
        match p.1 {
            JsonV::Str(_) => None,
            v => Some(type_error(v)),
        }
    } else if optional_key(p.0) {
        match p.1 {
            JsonV::Str(_) => None,
            JsonV::Null => None,
            v => Some(type_error(v)),
        }
    } else {
        None
    }
}

/// The first entry error, in entry order.
pub open spec fn first_entry_error(m: Entries) -> Option<Seq<char>>
    decreases m.len(),
{
    if m.len() == 0 {
        None
    } else {
        match first_entry_error(m.drop_last()) {
            Some(e) => Some(e),
            None => entry_error(m.last()),
        }
    }
}

pub open spec fn missing_error(m: Entries) -> Option<Seq<char>> {
    if !has_key(m, "queue_id"@) {
        Some("missing field `queue_id`"@)
    } else if !has_key(m, "source_table"@) {
        Some("missing field `source_table`"@)
    } else if !has_key(m, "source_id"@) {
        Some("missing field `source_id`"@)
    } else {
        None
    }
}

pub open spec fn str_field(m: Entries, k: Seq<char>) -> Seq<char> {
    match get(m, k) {
        Some(JsonV::Str(s)) => s,
        _ => Seq::empty(),
    }
}

pub open spec fn opt_field(m: Entries, k: Seq<char>) -> Option<Seq<char>> {
    match get(m, k) {
        Some(JsonV::Str(s)) => Some(s),
        _ => None,
    }
}

/// A job object decoded: the first wrongly typed field in entry order, else the first
/// missing required field (in field order), else the fields; unknown keys are ignored.
/// (`ro_folder` / `filename_hint` never reach here: normalization folds them.)
pub open spec fn decode_map(m: Entries) -> Result<ClaimFields, Seq<char>> {
    match first_entry_error(m) {
        Some(e) => Err(e),
        None => match missing_error(m) {
            Some(e) => Err(e),
            None => Ok(
                ClaimFields {
                    queue_id: str_field(m, "queue_id"@),
                    action_type: opt_field(m, "action_type"@),
                    ro_folder_name: opt_field(m, "ro_folder_name"@),
                    sub_folder: opt_field(m, "sub_folder"@),
                    bucket: opt_field(m, "bucket"@),
                    signed_url: opt_field(m, "signed_url"@),
                    filename: opt_field(m, "filename"@),
                    target_path_hint: opt_field(m, "target_path_hint"@),
                    source_table: str_field(m, "source_table"@),
                    source_id: str_field(m, "source_id"@),
                },
            ),
        },
    }
}

/// Law: a decoded job carries each optional string field of its (normalized) entries over
/// unchanged: when the entry for `sub_folder`, `bucket`, `ro_folder_name`, `action_type`,
/// `signed_url`, `filename` or `target_path_hint` holds a string, the decoded field is that
/// string; when the key is absent or null, the field is `None`.
pub proof fn law_decoded_job_keeps_optional_strings(m: Entries)
    requires
        decode_map(m) is Ok,
    ensures
        forall|s: Seq<char>| get(m, "action_type"@) == Some(JsonV::Str(s)) ==> decode_map(m)->Ok_0.action_type == Some(s),
        (get(m, "action_type"@) is None || get(m, "action_type"@) == Some(JsonV::Null)) ==> decode_map(m)->Ok_0.action_type is None,
        forall|s: Seq<char>| get(m, "ro_folder_name"@) == Some(JsonV::Str(s)) ==> decode_map(m)->Ok_0.ro_folder_name == Some(s),
        (get(m, "ro_folder_name"@) is None || get(m, "ro_folder_name"@) == Some(JsonV::Null)) ==> decode_map(m)->Ok_0.ro_folder_name is None,
        forall|s: Seq<char>| get(m, "sub_folder"@) == Some(JsonV::Str(s)) ==> decode_map(m)->Ok_0.sub_folder == Some(s),
        (get(m, "sub_folder"@) is None || get(m, "sub_folder"@) == Some(JsonV::Null)) ==> decode_map(m)->Ok_0.sub_folder is None,
        forall|s: Seq<char>| get(m, "bucket"@) == Some(JsonV::Str(s)) ==> decode_map(m)->Ok_0.bucket == Some(s),
        (get(m, "bucket"@) is None || get(m, "bucket"@) == Some(JsonV::Null)) ==> decode_map(m)->Ok_0.bucket is None,
        forall|s: Seq<char>| get(m, "signed_url"@) == Some(JsonV::Str(s)) ==> decode_map(m)->Ok_0.signed_url == Some(s),
        (get(m, "signed_url"@) is None || get(m, "signed_url"@) == Some(JsonV::Null)) ==> decode_map(m)->Ok_0.signed_url is None,
        forall|s: Seq<char>| get(m, "filename"@) == Some(JsonV::Str(s)) ==> decode_map(m)->Ok_0.filename == Some(s),
        (get(m, "filename"@) is None || get(m, "filename"@) == Some(JsonV::Null)) ==> decode_map(m)->Ok_0.filename is None,
        forall|s: Seq<char>| get(m, "target_path_hint"@) == Some(JsonV::Str(s)) ==> decode_map(m)->Ok_0.target_path_hint == Some(s),
        (get(m, "target_path_hint"@) is None || get(m, "target_path_hint"@) == Some(JsonV::Null)) ==> decode_map(m)->Ok_0.target_path_hint is None,
{
}

/// Law: decoding a job object keeps its string `sub_folder`: when the job's normalized
/// entries hold `sub_folder` as a string and the job decodes, the decoded job's sub folder is
/// exactly that string.
pub proof fn law_job_object_keeps_sub_folder(
    o: Vec<(String, Json)>,
    batch: (Option<Seq<char>>, Option<Seq<char>>),
    s: Seq<char>,
)
    requires
        get(normalized(entries_view(o@), batch), "sub_folder"@) == Some(JsonV::Str(s)),
        item_result(JsonV::Object(o), batch) is Ok,
    ensures
        item_result(JsonV::Object(o), batch)->Ok_0.sub_folder == Some(s),
{
    law_decoded_job_keeps_optional_strings(normalized(entries_view(o@), batch));
}

/// Positions of the required fields in the positional (array) form.
pub open spec fn required_pos(i: int) -> bool {
    i == 0 || i == 8 || i == 9
}

pub open spec fn elem_error(i: int, v: JsonV) -> Option<Seq<char>> {
    match v {
        JsonV::Str(_) => None,
        JsonV::Null => if required_pos(i) {
            Some(type_error(v))
        } else {
            None
        },
        _ => Some(type_error(v)),
    }
}

pub open spec fn short_error(i: int) -> Seq<char> {
    "invalid length "@ + decimal(i as nat) + ", expected struct ClaimItem with 10 elements"@
}

pub open spec fn pos_error(a: Seq<JsonV>, i: int) -> Option<Seq<char>> {
    if i < a.len() {
        elem_error(i, a[i])
    } else if required_pos(i) {
        Some(short_error(i))
    } else {
        None
    }
}

pub open spec fn seq_error(a: Seq<JsonV>, n: nat) -> Option<Seq<char>>
    decreases n,
{
    if n == 0 {
        None
    } else {
        match seq_error(a, (n - 1) as nat) {
            Some(e) => Some(e),
            None => pos_error(a, n - 1),
        }
    }
}

pub open spec fn str_at(a: Seq<JsonV>, i: int) -> Seq<char> {
    match a[i] {
        JsonV::Str(s) => s,
        _ => Seq::empty(),
    }
}

pub open spec fn opt_at(a: Seq<JsonV>, i: int) -> Option<Seq<char>> {
    if i < a.len() {
        match a[i] {
            JsonV::Str(s) => Some(s),
            _ => None,
        }
    } else {
        None
    }
}

/// A job given as an array: its fields by position, in declaration order.
pub open spec fn decode_seq(a: Seq<JsonV>) -> Result<ClaimFields, Seq<char>> {
    match seq_error(a, 10) {
        Some(e) => Err(e),
        None => if a.len() > 10 {
            Err("invalid length "@ + decimal(a.len()) + ", expected fewer elements in array"@)
        } else {
            Ok(
                ClaimFields {
                    queue_id: str_at(a, 0),
                    action_type: opt_at(a, 1),
                    ro_folder_name: opt_at(a, 2),
                    sub_folder: opt_at(a, 3),
                    bucket: opt_at(a, 4),
                    signed_url: opt_at(a, 5),
                    filename: opt_at(a, 6),
                    target_path_hint: opt_at(a, 7),
                    source_table: str_at(a, 8),
                    source_id: str_at(a, 9),
                },
            )
        },
    }
}

/// One raw job decoded: an object after normalization, an array by position, anything
/// else refused.
pub open spec fn item_result(raw: JsonV, batch: (Option<Seq<char>>, Option<Seq<char>>)) -> Result<
    ClaimFields,
    Seq<char>,
> {
    match raw {
        JsonV::Object(o) => decode_map(normalized(entries_view(o@), batch)),
        JsonV::Array(a) => decode_seq(crate::json::values_view(a@)),
        v => Err("invalid type: "@ + unexpected(v) + ", expected struct ClaimItem"@),
    }
}

proof fn lemma_first_entry_error_prefix(m: Entries, n: int)
    requires
        0 <= n <= m.len(),
        first_entry_error(m.take(n)) is Some,
    ensures
        first_entry_error(m) == first_entry_error(m.take(n)),
    decreases m.len() - n,
{
    if n < m.len() {
        assert(m.take(n + 1).drop_last() =~= m.take(n));
        assert(first_entry_error(m.take(n + 1)) == first_entry_error(m.take(n)));
        lemma_first_entry_error_prefix(m, n + 1);
    } else {
        assert(m.take(n) =~= m);
    }
}

proof fn lemma_seq_error_mono(a: Seq<JsonV>, n: nat, m: nat)
    requires
        n <= m,
        seq_error(a, n) is Some,
    ensures
        seq_error(a, m) == seq_error(a, n),
    decreases m - n,
{
    if n < m {
        lemma_seq_error_mono(a, n, (m - 1) as nat);
    }
}

fn key_is(k: &[char], lit: &str) -> (b: bool)
    ensures
        b == (k@ == lit@),
{
    eq_str(k, lit)
}

fn describe_unexpected(v: &Json) -> (r: String)
    ensures
        r@ == unexpected(v@),
{
    match v {
        Json::Null => String::from_str("null"),
        Json::Bool(b) => {
            let mut s = String::from_str("boolean `");
            if *b {
                s.append("true");
            } else {
                s.append("false");
            }
            s.append("`");
            s
        },
        Json::Number(t) => {
            let tv = chars_of(t.as_str());
            let mut integer = true;
            let mut i: usize = 0;
            while i < tv.len()
                invariant
                    i <= tv.len(),
                    integer == (forall|j: int|
                        0 <= j < i ==> #[trigger] tv@[j] != '.' && tv@[j] != 'e' && tv@[j] != 'E'),
                decreases tv.len() - i,
            {
                if tv[i] == '.' || tv[i] == 'e' || tv[i] == 'E' {
                    integer = false;
                }
                i = i + 1;
            }
            let mut s = if integer {
                String::from_str("integer `")
            } else {
                String::from_str("floating point `")
            };
            s.append(t.as_str());
            s.append("`");
            s
        },
        Json::Str(x) => {
            let mut s = String::from_str("string ");
            let d = debug_string(x.as_str());
            s.append(d.as_str());
            s
        },
        Json::Array(_) => String::from_str("sequence"),
        Json::Object(_) => String::from_str("map"),
    }
}

fn type_error_text(v: &Json) -> (r: String)
    ensures
        r@ == type_error(v@),
{
    let mut s = String::from_str("invalid type: ");
    let u = describe_unexpected(v);
    s.append(u.as_str());
    s.append(", expected a string");
    s
}

fn entry_error_text(k: &String, v: &Json) -> (r: Option<String>)
    ensures
        match r {
            Some(e) => entry_error((k@, v@)) == Some(e@),
            None => entry_error((k@, v@)) is None,
        },
{
    let kv = chars_of(k.as_str());
    let kc = kv.as_slice();
    let required = key_is(kc, "queue_id") || key_is(kc, "source_table") || key_is(kc, "source_id");
    let optional = key_is(kc, "action_type") || key_is(kc, "ro_folder_name") || key_is(
        kc,
        "sub_folder",
    ) || key_is(kc, "bucket") || key_is(kc, "signed_url") || key_is(kc, "filename") || key_is(
        kc,
        "target_path_hint",
    );
    if !required && !optional {
        return None;
    }
    match v {
        Json::Str(_) => None,
        Json::Null => {
            if required {
                Some(type_error_text(v))
            } else {
                None
            }
        },
        _ => Some(type_error_text(v)),
    }
}

fn text_field(m: &Vec<(String, Json)>, k: &str) -> (r: String)
    ensures
        r@ == str_field(entries_view(m@), k@),
{
    match find_key(m, k) {
        Some(i) => match &m[i].1 {
            Json::Str(s) => s.clone(),
            _ => String::new(),
        },
        None => String::new(),
    }
}

fn optional_field(m: &Vec<(String, Json)>, k: &str) -> (r: Option<String>)
    ensures
        opt_view(r) == opt_field(entries_view(m@), k@),
{
    match find_key(m, k) {
        Some(i) => match &m[i].1 {
            Json::Str(s) => Some(s.clone()),
            _ => None,
        },
        None => None,
    }
}

fn decode_claim_map(m: &Vec<(String, Json)>) -> (r: Result<ClaimItem, String>)
    ensures
        match (r, decode_map(entries_view(m@))) {
            (Ok(item), Ok(f)) => fields_of(item) == f,
            (Err(e), Err(x)) => e@ == x,
            _ => false,
        },
{
    let ghost e = entries_view(m@);
    let mut i: usize = 0;
    while i < m.len()
        invariant
            i <= m.len(),
            e == entries_view(m@),
            first_entry_error(e.take(i as int)) is None,
        decreases m.len() - i,
    {
        assert(e.take(i + 1).drop_last() =~= e.take(i as int));
        assert(e.take(i + 1).last() == (m@[i as int].0@, m@[i as int].1@));
        match entry_error_text(&m[i].0, &m[i].1) {
            Some(err) => {
                proof {
                    lemma_first_entry_error_prefix(e, i + 1);
                }
                return Err(err);
            },
            None => {},
        }
        i = i + 1;
    }
    assert(e.take(m.len() as int) =~= e);
    if !contains_key(m, "queue_id") {
        return Err(String::from_str("missing field `queue_id`"));
    }
    if !contains_key(m, "source_table") {
        return Err(String::from_str("missing field `source_table`"));
    }
    if !contains_key(m, "source_id") {
        return Err(String::from_str("missing field `source_id`"));
    }
    Ok(
        ClaimItem {
            queue_id: text_field(m, "queue_id"),
            action_type: optional_field(m, "action_type"),
            ro_folder_name: optional_field(m, "ro_folder_name"),
            sub_folder: optional_field(m, "sub_folder"),
            bucket: optional_field(m, "bucket"),
            signed_url: optional_field(m, "signed_url"),
            filename: optional_field(m, "filename"),
            target_path_hint: optional_field(m, "target_path_hint"),
            source_table: text_field(m, "source_table"),
            source_id: text_field(m, "source_id"),
        },
    )
}

fn text_at(a: &Vec<Json>, i: usize) -> (r: String)
    requires
        i < a@.len(),
    ensures
        r@ == str_at(crate::json::values_view(a@), i as int),
{
    match &a[i] {
        Json::Str(s) => s.clone(),
        _ => String::new(),
    }
}

fn optional_at(a: &Vec<Json>, i: usize) -> (r: Option<String>)
    ensures
        opt_view(r) == opt_at(crate::json::values_view(a@), i as int),
{
    if i < a.len() {
        match &a[i] {
            Json::Str(s) => Some(s.clone()),
            _ => None,
        }
    } else {
        None
    }
}

fn short_error_text(i: usize) -> (r: String)
    ensures
        r@ == short_error(i as int),
{
    let mut s = String::from_str("invalid length ");
    let d = u64_to_string(i as u64);
    s.append(d.as_str());
    s.append(", expected struct ClaimItem with 10 elements");
    s
}

fn decode_claim_seq(a: &Vec<Json>) -> (r: Result<ClaimItem, String>)
    ensures
        match (r, decode_seq(crate::json::values_view(a@))) {
            (Ok(item), Ok(f)) => fields_of(item) == f,
            (Err(e), Err(x)) => e@ == x,
            _ => false,
        },
{
    let ghost av = crate::json::values_view(a@);
    let mut i: usize = 0;
    while i < 10
        invariant
            i <= 10,
            av == crate::json::values_view(a@),
            seq_error(av, i as nat) is None,
        decreases 10 - i,
    {
        let required = i == 0 || i == 8 || i == 9;
        if i < a.len() {
            let bad = match &a[i] {
                Json::Str(_) => false,
                Json::Null => required,
                _ => true,
            };
            if bad {
                proof {
                    lemma_seq_error_mono(av, (i + 1) as nat, 10);
                }
                return Err(type_error_text(&a[i]));
            }
        } else if required {
            proof {
                lemma_seq_error_mono(av, (i + 1) as nat, 10);
            }
            return Err(short_error_text(i));
        }
        i = i + 1;
    }
    if a.len() > 10 {
        let mut s = String::from_str("invalid length ");
        let d = u64_to_string(a.len() as u64);
        s.append(d.as_str());
        s.append(", expected fewer elements in array");
        return Err(s);
    }
    Ok(
        ClaimItem {
            queue_id: text_at(a, 0),
            action_type: optional_at(a, 1),
            ro_folder_name: optional_at(a, 2),
            sub_folder: optional_at(a, 3),
            bucket: optional_at(a, 4),
            signed_url: optional_at(a, 5),
            filename: optional_at(a, 6),
            target_path_hint: optional_at(a, 7),
            source_table: text_at(a, 8),
            source_id: text_at(a, 9),
        },
    )
}

/// Decodes one raw job (see `item_result`).
pub fn decode_claim_item(raw: Json, batch: &BatchAckDefaults) -> (r: Result<ClaimItem, String>)
    ensures
        match (r, item_result(raw@, (opt_text(batch.source_table), opt_text(batch.source_id)))) {
            (Ok(item), Ok(f)) => fields_of(item) == f,
            (Err(e), Err(x)) => e@ == x,
            _ => false,
        },
{
    match raw {
        Json::Object(o) => {
            let ghost ov = entries_view(o@);
            let norm = normalize_claim_item_value(Json::Object(o), batch);
            match norm {
                Json::Object(out) => decode_claim_map(&out),
                _ => Err(String::new()),
            }
        },
        Json::Array(a) => decode_claim_seq(&a),
        other => {
            let mut s = String::from_str("invalid type: ");
            let u = describe_unexpected(&other);
            s.append(u.as_str());
            s.append(", expected struct ClaimItem");
            Err(s)
        },
    }
}

// ---------------------------------------------------------------------------
// The whole response
// ---------------------------------------------------------------------------

/// The jobs array of an object response: the first of `items`, `jobs`, `claimed`,
/// `claimed_items`, `mirror_files` that holds an array.
pub open spec fn items_in(m: Entries) -> Option<Vec<Json>> {
    match get(m, "items"@) {
        Some(JsonV::Array(a)) => Some(a),
        _ => match get(m, "jobs"@) {
            Some(JsonV::Array(a)) => Some(a),
            _ => match get(m, "claimed"@) {
                Some(JsonV::Array(a)) => Some(a),
                _ => match get(m, "claimed_items"@) {
                    Some(JsonV::Array(a)) => Some(a),
                    _ => match get(m, "mirror_files"@) {
                        Some(JsonV::Array(a)) => Some(a),
                        _ => None,
                    },
                },
            },
        },
    }
}

/// The keys of an object, listed as `{:?}` lists them.
pub open spec fn keys_listing(m: Entries) -> Seq<char> {
    "["@ + join(debug_keys(m), ", "@) + "]"@
}

pub open spec fn debug_keys(m: Entries) -> Seq<Seq<char>> {
    Seq::new(m.len(), |i: int| debug_repr(m[i].0))
}

/// The jobs of a response: the array itself, or the jobs array of an object.
pub open spec fn job_list(root: JsonV) -> Result<Vec<Json>, Seq<char>> {
    match root {
        JsonV::Array(a) => Ok(a),
        JsonV::Object(o) => match items_in(entries_view(o@)) {
            Some(a) => Ok(a),
            None => Err(
                "claim response missing items array (top-level keys: "@ + keys_listing(
                    entries_view(o@),
                ) + ")"@,
            ),
        },
        _ => Err("claim response root must be object or array"@),
    }
}

/// The decoded jobs, in order.
pub open spec fn ok_fields(rs: Seq<Result<ClaimFields, Seq<char>>>) -> Seq<ClaimFields>
    decreases rs.len(),
{
    if rs.len() == 0 {
        Seq::empty()
    } else {
        match rs.last() {
            Ok(f) => ok_fields(rs.drop_last()).push(f),
            Err(_) => ok_fields(rs.drop_last()),
        }
    }
}

/// `[i]: error` for each job that failed to decode, in order.
pub open spec fn err_lines(rs: Seq<Result<ClaimFields, Seq<char>>>) -> Seq<Seq<char>>
    decreases rs.len(),
{
    if rs.len() == 0 {
        Seq::empty()
    } else {
        match rs.last() {
            Ok(_) => err_lines(rs.drop_last()),
            Err(e) => err_lines(rs.drop_last()).push(
                "["@ + decimal((rs.len() - 1) as nat) + "]: "@ + e,
            ),
        }
    }
}

pub open spec fn mentions_job_fields(text: Seq<char>) -> bool {
    has_sub(text, "queue_id"@) || has_sub(text, "queueId"@) || has_sub(text, "signed_url"@)
        || has_sub(text, "signedUrl"@)
}

/// The outcome of a claim response (`root` parsed from `text`): the jobs that decode, in
/// order; an error when the response has no jobs array, or when it has jobs and none
/// decodes. Jobs that fail beside ones that decode are skipped.
pub open spec fn claim_batch_outcome(root: JsonV, text: Seq<char>) -> Result<Seq<ClaimFields>, Seq<char>> {
    match job_list(root) {
        Err(e) => Err(e),
        Ok(jobs) => {
            let batch = batch_defaults(root);
            let rs = crate::json::values_view(jobs@).map_values(
                |raw: JsonV| item_result(raw, batch),
            );
            let oks = ok_fields(rs);
            if oks.len() == 0 && jobs@.len() > 0 {
                let errs = err_lines(rs);
                let hint = if errs.len() == 0 {
                    "no items deserialized"@
                } else {
                    "all "@ + decimal(jobs@.len()) + " items failed parse: "@ + join(errs, "; "@)
                };
                if mentions_job_fields(text) {
                    Err(hint + " \u{2014} response contains job fields; likely shape mismatch"@)
                } else {
                    Err(hint)
                }
            } else {
                Ok(oks)
            }
        },
    }
}

fn items_index(o: &Vec<(String, Json)>) -> (r: Option<usize>)
    ensures
        match r {
            Some(i) => i < o@.len() && (o@[i as int].1@ matches JsonV::Array(a) && items_in(
                entries_view(o@),
            ) == Some(a)),
            None => items_in(entries_view(o@)) is None,
        },
{
    match find_key(o, "items") {
        Some(i) => if o[i].1.is_array() {
            return Some(i);
        },
        None => {},
    }
    match find_key(o, "jobs") {
        Some(i) => if o[i].1.is_array() {
            return Some(i);
        },
        None => {},
    }
    match find_key(o, "claimed") {
        Some(i) => if o[i].1.is_array() {
            return Some(i);
        },
        None => {},
    }
    match find_key(o, "claimed_items") {
        Some(i) => if o[i].1.is_array() {
            return Some(i);
        },
        None => {},
    }
    match find_key(o, "mirror_files") {
        Some(i) => if o[i].1.is_array() {
            return Some(i);
        },
        None => {},
    }
    None
}

fn keys_text(o: &Vec<(String, Json)>) -> (r: String)
    ensures
        r@ == keys_listing(entries_view(o@)),
{
    let ghost e = entries_view(o@);
    let mut parts: Vec<String> = Vec::new();
    let mut i: usize = 0;
    while i < o.len()
        invariant
            i <= o.len(),
            e == entries_view(o@),
            crate::text::views(parts@) =~= debug_keys(e).take(i as int),
        decreases o.len() - i,
    {
        let d = debug_string(o[i].0.as_str());
        let ghost prev = crate::text::views(parts@);
        parts.push(d);
        assert(crate::text::views(parts@) =~= prev.push(d@));
        assert(debug_keys(e).take(i + 1) =~= debug_keys(e).take(i as int).push(debug_keys(e)[i as int]));
        i = i + 1;
    }
    assert(debug_keys(e).take(o.len() as int) =~= debug_keys(e));
    let mut s = String::from_str("[");
    let j = join_strings(&parts, ", ");
    s.append(j.as_str());
    s.append("]");
    s
}

/// Decodes a claim response; `root` is `text` parsed (see `claim_batch_outcome`).
pub fn parse_claim_batch(root: Json, text: &str) -> (r: Result<Vec<ClaimItem>, String>)
    ensures
        match (r, claim_batch_outcome(root@, text@)) {
            (Ok(items), Ok(f)) => items@.map_values(|it: ClaimItem| fields_of(it)) == f,
            (Err(e), Err(x)) => e@ == x,
            _ => false,
        },
{
    let batch = batch_ack_defaults(&root);
    let ghost bv = (opt_text(batch.source_table), opt_text(batch.source_id));
    let jobs: Vec<Json> = match root {
        Json::Array(a) => a,
        Json::Object(o) => {
            match items_index(&o) {
                Some(i) => {
                    let mut o = o;
                    let (_, v) = o.remove(i);
                    match v {
                        Json::Array(a) => a,
                        _ => {
                            return Err(String::new());
                        },
                    }
                },
                None => {
                    let mut s = String::from_str("claim response missing items array (top-level keys: ");
                    let k = keys_text(&o);
                    s.append(k.as_str());
                    s.append(")");
                    return Err(s);
                },
            }
        },
        _ => {
            return Err(String::from_str("claim response root must be object or array"));
        },
    };
    let n = jobs.len();
    let ghost raws = crate::json::values_view(jobs@);
    let ghost rs = raws.map_values(|raw: JsonV| item_result(raw, bv));
    let mut rest = jobs;
    let mut items: Vec<ClaimItem> = Vec::new();
    let mut errors: Vec<String> = Vec::new();
    let mut i: usize = 0;
    while i < n
        invariant
            i <= n,
            n == raws.len(),
            rest@.len() == n - i,
            crate::json::values_view(rest@) == raws.skip(i as int),
            rs == raws.map_values(|raw: JsonV| item_result(raw, bv)),
            bv == (opt_text(batch.source_table), opt_text(batch.source_id)),
            items@.map_values(|it: ClaimItem| fields_of(it)) == ok_fields(rs.take(i as int)),
            crate::text::views(errors@) == err_lines(rs.take(i as int)),
        decreases n - i,
    {
        let ghost before = rest@;
        let raw = rest.remove(0);
        assert(crate::json::values_view(before)[0] == raw@);
        assert(crate::json::values_view(rest@) =~= crate::json::values_view(before).drop_first());
        assert(raw@ == raws[i as int]);
        assert(crate::json::values_view(rest@) =~= raws.skip(i + 1));
        assert(rs.take(i + 1).drop_last() =~= rs.take(i as int));
        assert(rs.take(i + 1).last() == rs[i as int]);
        match decode_claim_item(raw, &batch) {
            Ok(item) => {
                let ghost prev = items@.map_values(|it: ClaimItem| fields_of(it));
                items.push(item);
                assert(items@.map_values(|it: ClaimItem| fields_of(it)) =~= prev.push(fields_of(item)));
            },
            Err(e) => {
                let mut line = String::from_str("[");
                let d = u64_to_string(i as u64);
                line.append(d.as_str());
                line.append("]: ");
                line.append(e.as_str());
                let ghost prev = crate::text::views(errors@);
                errors.push(line);
                assert(crate::text::views(errors@) =~= prev.push(line@));
            },
        }
        i = i + 1;
    }
    assert(rs.take(n as int) =~= rs);
    if items.len() == 0 && n > 0 {
        let mut hint = if errors.len() == 0 {
            String::from_str("no items deserialized")
        } else {
            let mut h = String::from_str("all ");
            let d = u64_to_string(n as u64);
            h.append(d.as_str());
            h.append(" items failed parse: ");
            let j = join_strings(&errors, "; ");
            h.append(j.as_str());
            h
        };
        let tv = chars_of(text);
        if crate::text::contains_str(tv.as_slice(), "queue_id") || crate::text::contains_str(
            tv.as_slice(),
            "queueId",
        ) || crate::text::contains_str(tv.as_slice(), "signed_url") || crate::text::contains_str(
            tv.as_slice(),
            "signedUrl",
        ) {
            hint.append(" \u{2014} response contains job fields; likely shape mismatch");
        }
        return Err(hint);
    }
    Ok(items)
}

/// Decodes a `ccc-package-claim-batch` response body: the text is parsed as JSON (a parse
/// failure gives `claim JSON invalid: {error}`), then decoded by `parse_claim_batch`.
pub fn parse_claim_batch_body(text: &str) -> (r: Result<Vec<ClaimItem>, String>)
    ensures
        match json_text_value(text@) {
            Err(e) => r matches Err(m) && m@ == "claim JSON invalid: "@ + e,
            Ok(root) => match (r, claim_batch_outcome(root, text@)) {
                (Ok(items), Ok(f)) => items@.map_values(|it: ClaimItem| fields_of(it)) == f,
                (Err(e), Err(x)) => e@ == x,
                _ => false,
            },
        },
{
    match parse_json_text(text) {
        Ok(root) => parse_claim_batch(root, text),
        Err(e) => {
            let mut m = String::from_str("claim JSON invalid: ");
            m.append(e.as_str());
            Err(m)
        },
    }
}

} // verus!
