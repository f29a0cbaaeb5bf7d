//! Unique `fw_<ms>_<6 hex>.<ext>` names for files saved into FileWisely Incoming, so that
//! repeated `document.pdf` saves do not overwrite each other: which files get one, how it
//! is formed, and which names already are such names.
use vstd::prelude::*;
use crate::paths::{extension, file_name};
use crate::text::{
    all_digits, decimal, digit_char, ends_with, eq_ignore_ascii_case, hex_padded, is_digit,
    is_hex_digit, starts_with, unicode_lower,
};

verus! {

/// Rename attempts before the file keeps the name it has.
pub const RENAME_ATTEMPTS: u32 = 48;

pub open spec fn all_hex(s: Seq<char>) -> bool {
    forall|i: int| 0 <= i < s.len() ==> is_hex_digit(#[trigger] s[i])
}

/// `fw_{digits}_{6 hex digits}`: the stem of a unique name (the digits may be absent).
pub open spec fn fw_unique_stem(s: Seq<char>) -> bool {
    s.len() >= 10 && starts_with(s, "fw_"@) && s[s.len() - 7] == '_' && all_digits(
        s.subrange(3, s.len() - 7),
    ) && all_hex(s.skip(s.len() - 6))
}

pub fn is_fw_unique_stem(stem: &[char]) -> (b: bool)
    ensures
        b == fw_unique_stem(stem@),
{
    let n = stem.len();
    if n < 10 || !crate::text::starts_with_str(stem, "fw_") || stem[n - 7] != '_' {
        return false;
    }
    let mut i: usize = 3;
    while i < n - 7
        invariant
            3 <= i <= n - 7,
            n == stem@.len(),
            n >= 10,
            forall|j: int| 3 <= j < i ==> crate::text::is_digit(#[trigger] stem@[j]),
        decreases n - 7 - i,
    {
        if !crate::text::char_is_digit(stem[i]) {
            assert(!crate::text::is_digit(stem@.subrange(3, n - 7)[i - 3]));
            return false;
        }
        i = i + 1;
    }
    assert(all_digits(stem@.subrange(3, n - 7))) by {
        assert forall|j: int| 0 <= j < stem@.subrange(3, n - 7).len() implies crate::text::is_digit(
            #[trigger] stem@.subrange(3, n - 7)[j],
        ) by {
            assert(stem@.subrange(3, n - 7)[j] == stem@[j + 3]);
        }
    }
    let mut k: usize = n - 6;
    while k < n
        invariant
            n - 6 <= k <= n,
            n == stem@.len(),
            n >= 10,
            forall|j: int| n - 6 <= j < k ==> is_hex_digit(#[trigger] stem@[j]),
        decreases n - k,
    {
        if !crate::text::char_is_hex_digit(stem[k]) {
            assert(!is_hex_digit(stem@.skip(n - 6)[k - (n - 6)]));
            return false;
        }
        k = k + 1;
    }
    assert(all_hex(stem@.skip(n - 6))) by {
        assert forall|j: int| 0 <= j < stem@.skip(n - 6).len() implies is_hex_digit(
            #[trigger] stem@.skip(n - 6)[j],
        ) by {
            assert(stem@.skip(n - 6)[j] == stem@[j + n - 6]);
        }
    }
    true
}

/// A name (compared lower-cased) that is `{unique stem}.pdf`.
pub open spec fn fw_unique_pdf_name(name: Seq<char>) -> bool {
    let l = unicode_lower(name);
    ends_with(l, ".pdf"@) && fw_unique_stem(l.take(l.len() - 4))
}

pub fn is_fw_unique_pdf_name(name: &str) -> (b: bool)
    ensures
        b == fw_unique_pdf_name(name@),
{
    let l = crate::text::lower_chars(name);
    if !crate::text::ends_with_str(l.as_slice(), ".pdf") {
        return false;
    }
    proof {
        reveal_strlit(".pdf");
    }
    let stem = crate::text::slice_chars(l.as_slice(), 0, l.len() - 4);
    assert(stem@ =~= l@.take(l@.len() - 4));
    is_fw_unique_stem(stem.as_slice())
}

/// The length of the Office extension a lower-cased name ends with (`.docx`, `.doc`,
/// `.rtf`), if any.
pub open spec fn office_suffix_len(l: Seq<char>) -> Option<int> {
    if ends_with(l, ".docx"@) {
        Some(5)
    } else if ends_with(l, ".doc"@) {
        Some(4)
    } else if ends_with(l, ".rtf"@) {
        Some(4)
    } else {
        None
    }
}

/// A name (compared lower-cased) that is `{unique stem}.doc`, `.docx` or `.rtf`.
pub open spec fn fw_unique_office_name(name: Seq<char>) -> bool {
    let l = unicode_lower(name);
    match office_suffix_len(l) {
        Some(n) => fw_unique_stem(l.take(l.len() - n)),
        None => false,
    }
}

pub fn is_fw_unique_office_name(name: &str) -> (b: bool)
    ensures
        b == fw_unique_office_name(name@),
{
    let l = crate::text::lower_chars(name);
    let n: usize = if crate::text::ends_with_str(l.as_slice(), ".docx") {
        5
    } else if crate::text::ends_with_str(l.as_slice(), ".doc") {
        4
    } else if crate::text::ends_with_str(l.as_slice(), ".rtf") {
        4
    } else {
        return false;
    };
    proof {
        reveal_strlit(".docx");
        reveal_strlit(".doc");
        reveal_strlit(".rtf");
    }
    let stem = crate::text::slice_chars(l.as_slice(), 0, l.len() - n);
    assert(stem@ =~= l@.take(l@.len() - n));
    is_fw_unique_stem(stem.as_slice())
}

/// The unique name tried by rename attempt `attempt` at time `ms` (clock nanoseconds
/// `nanos`): `fw_{ms}_{r}{ext}`, `r` the nanoseconds plus `attempt × 7919` (wrapping)
/// modulo `0xFFFFFF`, in six hex digits.
pub open spec fn fw_unique_name(ms: u64, nanos: u128, attempt: u32, ext: Seq<char>) -> Seq<char> {
    "fw_"@ + decimal(ms as nat) + "_"@ + hex_padded(
        (crate::services::converter::wrapped_sum(nanos, (attempt * 7919) as u128) % 0xFFFFFF) as nat,
        6,
    ) + ext
}

pub fn fw_unique_name_for(ms: u64, nanos: u128, attempt: u32, ext: &str) -> (r: String)
    ensures
        r@ == fw_unique_name(ms, nanos, attempt, ext@),
{
    let step: u128 = (attempt as u128) * 7919;
    let rnd: u64 = (nanos.wrapping_add(step) % 0xFFFFFF) as u64;
    let mut v: Vec<char> = Vec::new();
    v.push('f');
    v.push('w');
    v.push('_');
    assert(v@ =~= "fw_"@) by {
        reveal_strlit("fw_");
    }
    crate::text::push_decimal(&mut v, ms);
    v.push('_');
    let ghost mid = v@;
    assert(mid =~= "fw_"@ + decimal(ms as nat) + "_"@) by {
        reveal_strlit("_");
    }
    crate::text::push_hex_padded(&mut v, rnd, 6);
    let mut r = crate::text::string_of(v.as_slice());
    r.append(ext);
    r
}

/// A character of a generated name: a digit, a lower-case letter or `_` / `.`.
spec fn plain_name_char(c: char) -> bool {
    ('0' <= c && c <= '9') || ('a' <= c && c <= 'z') || c == '_' || c == '.'
}

proof fn lemma_digit_char(d: nat)
    requires
        d < 10,
    ensures
        is_digit(digit_char(d)),
        plain_name_char(digit_char(d)),
{
    assert((d + 48) as u8 == d + 48);
}

proof fn lemma_decimal_chars(n: nat)
    ensures
        decimal(n).len() >= 1,
        all_digits(decimal(n)),
        forall|i: int| 0 <= i < decimal(n).len() ==> plain_name_char(#[trigger] decimal(n)[i]),
    decreases n,
{
    if n < 10 {
        lemma_digit_char(n);
    } else {
        lemma_decimal_chars(n / 10);
        lemma_digit_char(n % 10);
        assert forall|i: int| 0 <= i < decimal(n).len() implies is_digit(#[trigger] decimal(n)[i])
            && plain_name_char(decimal(n)[i]) by {
            if i < decimal(n / 10).len() {
                assert(decimal(n)[i] == decimal(n / 10)[i]);
            }
        }
    }
}

proof fn lemma_hex_padded_chars(n: nat, w: nat)
    ensures
        hex_padded(n, w).len() == w,
        forall|i: int| 0 <= i < w ==> is_hex_digit(#[trigger] hex_padded(n, w)[i]),
        forall|i: int| 0 <= i < w ==> plain_name_char(#[trigger] hex_padded(n, w)[i]),
    decreases w,
{
    if w > 0 {
        lemma_hex_padded_chars(n / 16, (w - 1) as nat);
        let d = n % 16;
        if d < 10 {
            lemma_digit_char(d);
        } else {
            assert((d - 10 + 97) as u8 == d - 10 + 97);
        }
        assert forall|i: int| 0 <= i < w implies is_hex_digit(#[trigger] hex_padded(n, w)[i])
            && plain_name_char(hex_padded(n, w)[i]) by {
            if i < w - 1 {
                assert(hex_padded(n, w)[i] == hex_padded(n / 16, (w - 1) as nat)[i]);
            }
        }
    }
}

/// Law: the name made for a PDF rename is already a unique `fw_` name, so a file renamed
/// to it is not due for another rename. The name is ASCII with no upper-case letter; the
/// form is checked on the name lower-cased by `str::to_lowercase` (the value named
/// `unicode_lower`), which the trusted `str_to_lowercase` item states is the ASCII
/// mapping on ASCII text; the law holds where the two agree on this name.
pub proof fn law_renamed_pdf_is_not_renamed_again(ms: u64, nanos: u128, attempt: u32)
    ensures
        vstd::utf8::is_ascii_chars(fw_unique_name(ms, nanos, attempt, ".pdf"@)),
        crate::text::ascii_lower(fw_unique_name(ms, nanos, attempt, ".pdf"@)) == fw_unique_name(
            ms,
            nanos,
            attempt,
            ".pdf"@,
        ),
        unicode_lower(fw_unique_name(ms, nanos, attempt, ".pdf"@)) == crate::text::ascii_lower(
            fw_unique_name(ms, nanos, attempt, ".pdf"@),
        ) ==> fw_unique_pdf_name(fw_unique_name(ms, nanos, attempt, ".pdf"@)),
        unicode_lower(fw_unique_name(ms, nanos, attempt, ".pdf"@)) == crate::text::ascii_lower(
            fw_unique_name(ms, nanos, attempt, ".pdf"@),
        ) ==> forall|p: Seq<char>, d: bool|
            file_name(p) == Some(fw_unique_name(ms, nanos, attempt, ".pdf"@)) ==> !#[trigger] pdf_rename_due(p, d),
{
    let r = (crate::services::converter::wrapped_sum(nanos, (attempt * 7919) as u128) % 0xFFFFFF) as nat;
    let dm = decimal(ms as nat);
    let h = hex_padded(r, 6);
    let n = fw_unique_name(ms, nanos, attempt, ".pdf"@);
    reveal_strlit("fw_");
    reveal_strlit("_");
    reveal_strlit(".pdf");
    lemma_decimal_chars(ms as nat);
    lemma_hex_padded_chars(r, 6);
    let stem = "fw_"@ + dm + "_"@ + h;
    assert(n =~= stem + ".pdf"@);
    assert forall|i: int| 0 <= i < n.len() implies plain_name_char(#[trigger] n[i]) by {
        if i < 3 {
            assert(n[i] == "fw_"@[i]);
        } else if i < 3 + dm.len() {
            assert(n[i] == dm[i - 3]);
        } else if i < 4 + dm.len() {
            assert(n[i] == '_');
        } else if i < 10 + dm.len() {
            assert(n[i] == h[i - 4 - dm.len()]);
        } else {
            assert(n[i] == ".pdf"@[i - 10 - dm.len()]);
        }
    }
    assert(vstd::utf8::is_ascii_chars(n));
    assert(crate::text::ascii_lower(n) =~= n);
    assert(n.take(n.len() - 4) =~= stem);
    assert(n.subrange(n.len() - 4, n.len() as int) =~= ".pdf"@);
    assert(stem.subrange(0, 3) =~= "fw_"@);
    assert(stem.subrange(3, stem.len() - 7) =~= dm);
    assert(stem.skip(stem.len() - 6) =~= h);
    assert(stem[stem.len() - 7] == '_');
    assert(fw_unique_stem(stem));
}

/// A PDF straight in FileWisely Incoming that does not yet have a unique name is renamed.
pub open spec fn pdf_rename_due(path: Seq<char>, direct_child_of_incoming: bool) -> bool {
    &&& match extension(path) {
        Some(e) => eq_ignore_ascii_case(e, "pdf"@),
        None => false,
    }
    &&& direct_child_of_incoming
    &&& match file_name(path) {
        Some(n) => !fw_unique_pdf_name(n),
        None => false,
    }
}

/// Whether a detected PDF is renamed to a unique `fw_` name before anything else; the
/// rename itself (with its retries) is file I/O done by the caller.
pub fn unique_rename_incoming_pdf_if_needed(path: &str, direct_child_of_incoming: bool) -> (b: bool)
    ensures
        b == pdf_rename_due(path@, direct_child_of_incoming),
{
    let pv = crate::text::chars_of(path);
    let is_pdf = match crate::paths::extension_exec(pv.as_slice()) {
        Some(e) => crate::text::eq_ignore_ascii_case_str(e.as_slice(), "pdf"),
        None => false,
    };
    if !is_pdf || !direct_child_of_incoming {
        return false;
    }
    match crate::paths::file_name_exec(pv.as_slice()) {
        Some(n) => {
            let ns = crate::text::string_of(n.as_slice());
            !is_fw_unique_pdf_name(ns.as_str())
        },
        None => false,
    }
}

/// An Office file (`doc`, `docx`, `rtf`, lower-cased) straight in FileWisely Incoming
/// without a unique name is renamed, keeping its lower-cased extension.
pub open spec fn office_rename_ext(path: Seq<char>, direct_child_of_incoming: bool) -> Option<Seq<char>> {
    match extension(path) {
        Some(e) => {
            let l = unicode_lower(e);
            if (l == "doc"@ || l == "docx"@ || l == "rtf"@) && direct_child_of_incoming && match file_name(
                path,
            ) {
                Some(n) => !fw_unique_office_name(n),
                None => false,
            } {
                Some("."@ + l)
            } else {
                None
            }
        },
        None => None,
    }
}

/// The extension a detected Office file keeps when it is renamed to a unique `fw_` name,
/// or `None` when it keeps its name; the rename itself is file I/O done by the caller.
pub fn unique_rename_incoming_office_if_needed(path: &str, direct_child_of_incoming: bool) -> (r: Option<String>)
    ensures
        crate::ccc_package_sync::opt_view(r) == office_rename_ext(path@, direct_child_of_incoming),
{
    let pv = crate::text::chars_of(path);
    match crate::paths::extension_exec(pv.as_slice()) {
        Some(e) => {
            let es = crate::text::string_of(e.as_slice());
            let l = crate::text::str_to_lowercase(es.as_str());
            let lv = crate::text::chars_of(l.as_str());
            let s = lv.as_slice();
            let office = crate::text::eq_str(s, "doc") || crate::text::eq_str(s, "docx")
                || crate::text::eq_str(s, "rtf");
            if !office || !direct_child_of_incoming {
                return None;
            }
            let unique = match crate::paths::file_name_exec(pv.as_slice()) {
                Some(n) => {
                    let ns = crate::text::string_of(n.as_slice());
                    is_fw_unique_office_name(ns.as_str())
                },
                None => {
                    return None;
                },
            };
            if unique {
                None
            } else {
                let mut x = String::from_str(".");
                x.append(l.as_str());
                Some(x)
            }
        },
        None => None,
    }
}

} // verus!
