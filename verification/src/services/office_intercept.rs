//! Reading the document path out of a Word window title, and offering to send a Word
//! document to FileWisely at most once per 90 seconds per document.
use vstd::prelude::*;
use crate::paths::extension;
use crate::text::{byte_count, ends_with, starts_with, trim, unicode_lower};

verus! {

/// `t` without its last `n` characters.
pub open spec fn drop_end(t: Seq<char>, n: nat) -> Seq<char> {
    t.take(t.len() - n)
}

/// The document part of a Word title: the trimmed title without a trailing
/// ` - Word`, ` – Word`, ` - Microsoft Word` or ` – Microsoft Word` (the first that
/// matches, in that order), trimmed again.
pub open spec fn word_title_core(title: Seq<char>) -> Seq<char> {
    let t = trim(title);
    if ends_with(t, " - Word"@) {
        trim(drop_end(t, 7))
    } else if ends_with(t, " \u{2013} Word"@) {
        trim(drop_end(t, 7))
    } else if ends_with(t, " - Microsoft Word"@) {
        trim(drop_end(t, 17))
    } else if ends_with(t, " \u{2013} Microsoft Word"@) {
        trim(drop_end(t, 17))
    } else {
        t
    }
}

/// An absolute Windows path: `X:\` or `X:/` with a one-byte drive character, or a
/// UNC path starting with `\\`.
pub open spec fn looks_absolute(c: Seq<char>) -> bool {
    (c.len() >= 3 && (c[0] as u32) < 128 && c[1] == ':' && (c[2] == '\\' || c[2] == '/'))
        || starts_with(c, "\\\\"@)
}

pub open spec fn is_word_ext(e: Seq<char>) -> bool {
    e == "doc"@ || e == "docx"@ || e == "rtf"@
}

/// The path named by a Word title, when it is an absolute path of at least five bytes to
/// an existing file with extension `doc`, `docx` or `rtf` (lower-cased).
pub open spec fn title_document_path(title: Seq<char>, core_is_file: bool) -> Option<Seq<char>> {
    let c = word_title_core(title);
    if byte_count(c) < 5 || !looks_absolute(c) || !core_is_file {
        None
    } else {
        match extension(c) {
            Some(e) => if is_word_ext(unicode_lower(e)) {
                Some(c)
            } else {
                None
            },
            None => None,
        }
    }
}

proof fn lemma_take_sub(v: Seq<char>, n: int)
    requires
        0 <= n <= v.len(),
    ensures
        v.subrange(0, n) == v.take(n),
{
    assert(v.subrange(0, n) =~= v.take(n));
}

/// `word_title_core`: the document part of a Word window title.
pub fn word_title_document_core(title: &str) -> (r: String)
    ensures
        r@ == word_title_core(title@),
{
    let t = crate::text::trim_chars(title);
    proof {
        reveal_strlit(" - Word");
        reveal_strlit(" \u{2013} Word");
        reveal_strlit(" - Microsoft Word");
        reveal_strlit(" \u{2013} Microsoft Word");
    }
    let n = t.len();
    let cut: usize = if crate::text::ends_with_str(t.as_slice(), " - Word") {
        7
    } else if crate::text::ends_with_str(t.as_slice(), " \u{2013} Word") {
        7
    } else if crate::text::ends_with_str(t.as_slice(), " - Microsoft Word") {
        17
    } else if crate::text::ends_with_str(t.as_slice(), " \u{2013} Microsoft Word") {
        17
    } else {
        0
    };
    if cut == 0 {
        return crate::text::string_of(t.as_slice());
    }
    let head = crate::text::slice_chars(t.as_slice(), 0, n - cut);
    proof {
        lemma_take_sub(t@, n - cut);
    }
    let (a, b) = crate::text::trim_bounds(head.as_slice());
    let core = crate::text::slice_chars(head.as_slice(), a, b);
    crate::text::string_of(core.as_slice())
}

/// The document path a Word window title names (see `title_document_path`);
/// `core_is_file` says whether `word_title_document_core(title)` is an existing file.
pub fn extract_path_from_word_title(title: &str, core_is_file: bool) -> (r: Option<String>)
    ensures
        crate::ccc_package_sync::opt_view(r) == title_document_path(title@, core_is_file),
{
    let core = word_title_document_core(title);
    if crate::text::byte_len_exec(core.as_str()) < 5 {
        return None;
    }
    let c = crate::text::chars_of(core.as_str());
    proof {
        reveal_strlit("\\\\");
    }
    let abs = (c.len() >= 3 && (c[0] as u32) < 128 && c[1] == ':' && (c[2] == '\\' || c[2] == '/'))
        || crate::text::starts_with_str(c.as_slice(), "\\\\");
    if !abs || !core_is_file {
        return None;
    }
    match crate::paths::extension_exec(c.as_slice()) {
        Some(e) => {
            let es = crate::text::string_of(e.as_slice());
            let l = crate::text::lower_chars(es.as_str());
            proof {
                reveal_strlit("doc");
                reveal_strlit("docx");
                reveal_strlit("rtf");
            }
            if crate::text::eq_str(l.as_slice(), "doc") || crate::text::eq_str(l.as_slice(), "docx")
                || crate::text::eq_str(l.as_slice(), "rtf") {
                Some(core)
            } else {
                None
            }
        },
        None => None,
    }
}

/// The same document is not offered again within this many milliseconds.
pub const WINWORD_PROMPT_COOLDOWN_MS: u64 = 90_000;

/// The last document offered, by key, with when.
pub struct WinwordPrompt {
    pub last: Option<(String, u64)>,
}

pub open spec fn prompt_view(p: Option<(String, u64)>) -> Option<(Seq<char>, u64)> {
    match p {
        Some((k, t)) => Some((k@, t)),
        None => None,
    }
}

/// Whether the document with `key` may be offered at `now_ms`: not when it is the last
/// one offered and the cooldown has not passed.
pub open spec fn prompt_allowed(last: Option<(Seq<char>, u64)>, key: Seq<char>, now_ms: u64) -> bool {
    match last {
        Some((k, t)) => !(k == key && crate::services::ccc_batch::elapsed(now_ms, t)
            < WINWORD_PROMPT_COOLDOWN_MS),
        None => true,
    }
}

impl WinwordPrompt {
    pub fn new() -> (r: Self)
        ensures
            r.last is None,
    {
        WinwordPrompt { last: None }
    }

    /// Whether to offer the document now; when so, it becomes the last one offered.
    pub fn should_emit_winword_prompt(&mut self, key: &str, now_ms: u64) -> (b: bool)
        ensures
            b == prompt_allowed(prompt_view(old(self).last), key@, now_ms),
            b ==> prompt_view(final(self).last) == Some((key@, now_ms)),
            !b ==> prompt_view(final(self).last) == prompt_view(old(self).last),
    {
        match &self.last {
            Some((k, t)) => {
                let kv = crate::text::chars_of(k.as_str());
                let nv = crate::text::chars_of(key);
                if crate::text::chars_eq(kv.as_slice(), nv.as_slice())
                    && crate::services::ccc_batch::elapsed_ms(now_ms, *t) < WINWORD_PROMPT_COOLDOWN_MS {
                    return false;
                }
            },
            None => {},
        }
        self.last = Some((String::from_str(key), now_ms));
        true
    }

    /// One sample of the foreground window: when it is Word (`exe_lower` names
    /// `winword`), the send prompt is on, and the title resolved to a document, the
    /// document is offered unless it was offered within the cooldown (keyed by its
    /// lower-cased path). Returns the document to offer.
    pub fn winword_send_prompt(&mut self, exe_lower: &str, resolved: Option<String>, prompt_enabled: bool, now_ms: u64) -> (r: Option<String>)
        ensures
            ({
                let eligible = crate::text::has_sub(exe_lower@, "winword"@) && prompt_enabled
                    && resolved is Some;
                if eligible && prompt_allowed(
                    prompt_view(old(self).last),
                    unicode_lower(resolved->0@),
                    now_ms,
                ) {
                    &&& r matches Some(p) && p@ == resolved->0@
                    &&& prompt_view(final(self).last) == Some((unicode_lower(resolved->0@), now_ms))
                } else {
                    &&& r is None
                    &&& prompt_view(final(self).last) == prompt_view(old(self).last)
                }
            }),
    {
        let ev = crate::text::chars_of(exe_lower);
        if !crate::text::contains_str(ev.as_slice(), "winword") || !prompt_enabled {
            return None;
        }
        match resolved {
            None => None,
            Some(p) => {
                let key = crate::text::str_to_lowercase(p.as_str());
                if self.should_emit_winword_prompt(key.as_str(), now_ms) {
                    Some(p)
                } else {
                    None
                }
            },
        }
    }
}

} // verus!
