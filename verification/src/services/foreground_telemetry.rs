//! The foreground window as seen by the capture pipeline: how its process is classed,
//! how it is described in log lines and lock hints, and when CCC shows a printing dialog.
use vstd::prelude::*;
use crate::text::{decimal, has_sub, str_to_lowercase, take_chars, trim, unicode_lower};

verus! {

/// A snapshot of the active window.
pub struct ForegroundSnapshot {
    pub exe_token: String,
    pub process_id: u64,
    pub app_name: String,
    pub title_short: String,
    pub process_path: String,
}

/// The class of a lower-cased executable name: WINWORD, EXPLORER, SOFFICE (LibreOffice), OTHER.
pub open spec fn exe_class(exe: Seq<char>) -> Seq<char> {
    if has_sub(exe, "winword"@) {
        "WINWORD"@
    } else if has_sub(exe, "explorer"@) {
        "EXPLORER"@
    } else if has_sub(exe, "soffice"@) || has_sub(exe, "libreoffice"@) {
        "SOFFICE"@
    } else {
        "OTHER"@
    }
}

pub fn classify_exe(exe_lower: &str) -> (r: &'static str)
    ensures
        r@ == exe_class(exe_lower@),
{
    let v = crate::text::chars_of(exe_lower);
    let e = v.as_slice();
    if crate::text::contains_str(e, "winword") {
        "WINWORD"
    } else if crate::text::contains_str(e, "explorer") {
        "EXPLORER"
    } else if crate::text::contains_str(e, "soffice") || crate::text::contains_str(e, "libreoffice") {
        "SOFFICE"
    } else {
        "OTHER"
    }
}

/// The executable's file name, `unknown` without one.
pub open spec fn exe_token_of(process_path: Seq<char>) -> Seq<char> {
    match crate::paths::file_name(process_path) {
        Some(n) => n,
        None => "unknown"@,
    }
}

pub fn exe_token(process_path: &str) -> (r: String)
    ensures
        r@ == exe_token_of(process_path@),
{
    let v = crate::text::chars_of(process_path);
    match crate::paths::file_name_exec(v.as_slice()) {
        Some(n) => crate::text::string_of(n.as_slice()),
        None => String::from_str("unknown"),
    }
}

/// A window title for logs: trimmed, and cut to `max` characters followed by `…`.
pub open spec fn short_title(s: Seq<char>, max: nat) -> Seq<char> {
    let t = trim(s);
    if t.len() <= max {
        t
    } else {
        t.take(max as int) + "\u{2026}"@
    }
}

pub fn truncate_title(s: &str, max: usize) -> (r: String)
    ensures
        r@ == short_title(s@, max as nat),
{
    let t = crate::text::trim_string(s);
    let v = crate::text::chars_of(t.as_str());
    if v.len() <= max {
        t
    } else {
        let mut r = crate::text::take_string(t.as_str(), max);
        r.append("\u{2026}");
        r
    }
}

/// The snapshot of an active window: its executable name, process, application name, and
/// its title cut to 80 characters.
pub fn foreground_snapshot_from(process_path: &str, process_id: u64, app_name: &str, title: &str) -> (r:
    ForegroundSnapshot)
    ensures
        r.exe_token@ == exe_token_of(process_path@),
        r.process_id == process_id,
        r.app_name@ == app_name@,
        r.title_short@ == short_title(title@, 80),
        r.process_path@ == process_path@,
{
    ForegroundSnapshot {
        exe_token: exe_token(process_path),
        process_id,
        app_name: String::from_str(app_name),
        title_short: truncate_title(title, 80),
        process_path: String::from_str(process_path),
    }
}

/// CCC (or any app) shows a printing dialog: the title says `printing`, or a CCC window's
/// title says `print` (both compared lower-cased).
pub open spec fn printing_title(snap: Option<ForegroundSnapshot>) -> bool {
    match snap {
        Some(s) => {
            let title = unicode_lower(s.title_short@);
            let app = unicode_lower(s.app_name@);
            has_sub(title, "printing"@) || (has_sub(app, "ccc"@) && has_sub(title, "print"@))
        },
        None => false,
    }
}

pub fn ccc_printing_title_active(snap: Option<&ForegroundSnapshot>) -> (b: bool)
    ensures
        b == printing_title(
            match snap {
                Some(s) => Some(*s),
                None => None,
            },
        ),
{
    match snap {
        Some(s) => {
            let title = crate::text::lower_chars(s.title_short.as_str());
            let app = crate::text::lower_chars(s.app_name.as_str());
            crate::text::contains_str(title.as_slice(), "printing") || (crate::text::contains_str(
                app.as_slice(),
                "ccc",
            ) && crate::text::contains_str(title.as_slice(), "print"))
        },
        None => false,
    }
}

/// `[UCE] foreground {prefix}: class=… exe=… pid=… app_name=… title="…" path=…`.
pub open spec fn foreground_line(prefix: Seq<char>, s: ForegroundSnapshot) -> Seq<char> {
    "[UCE] foreground "@ + prefix + ": class="@ + exe_class(unicode_lower(s.exe_token@)) + " exe="@
        + s.exe_token@ + " pid="@ + decimal(s.process_id as nat) + " app_name="@ + s.app_name@
        + " title=\""@ + s.title_short@ + "\" path="@ + s.process_path@
}

pub fn format_foreground_line(prefix: &str, snap: &ForegroundSnapshot) -> (r: String)
    ensures
        r@ == foreground_line(prefix@, *snap),
{
    let l = str_to_lowercase(snap.exe_token.as_str());
    let cls = classify_exe(l.as_str());
    let mut r = String::from_str("[UCE] foreground ");
    r.append(prefix);
    r.append(": class=");
    r.append(cls);
    r.append(" exe=");
    r.append(snap.exe_token.as_str());
    r.append(" pid=");
    let pid = crate::text::u64_to_string(snap.process_id);
    r.append(pid.as_str());
    r.append(" app_name=");
    r.append(snap.app_name.as_str());
    r.append(" title=\"");
    r.append(snap.title_short.as_str());
    r.append("\" path=");
    r.append(snap.process_path.as_str());
    r
}

/// The hint logged when a claim hits a sharing violation: which process holds the
/// foreground (likely the one locking the file).
pub open spec fn locker_hint(snap: Option<ForegroundSnapshot>) -> Seq<char> {
    match snap {
        Some(s) => "likely_locker_hint class="@ + exe_class(unicode_lower(s.exe_token@)) + " exe="@
            + s.exe_token@ + " pid="@ + decimal(s.process_id as nat) + " title=\""@ + s.title_short@
            + "\""@,
        None => "likely_locker_hint=(foreground unavailable)"@,
    }
}

pub fn sharing_violation_process_hint(snap: Option<&ForegroundSnapshot>) -> (r: String)
    ensures
        r@ == locker_hint(
            match snap {
                Some(s) => Some(*s),
                None => None,
            },
        ),
{
    match snap {
        Some(s) => {
            let l = str_to_lowercase(s.exe_token.as_str());
            let cls = classify_exe(l.as_str());
            let mut r = String::from_str("likely_locker_hint class=");
            r.append(cls);
            r.append(" exe=");
            r.append(s.exe_token.as_str());
            r.append(" pid=");
            let pid = crate::text::u64_to_string(s.process_id);
            r.append(pid.as_str());
            r.append(" title=\"");
            r.append(s.title_short.as_str());
            r.append("\"");
            r
        },
        None => String::from_str("likely_locker_hint=(foreground unavailable)"),
    }
}

/// When Word was last seen in the foreground (0: never).
pub struct WinwordForeground {
    pub last_unix_ms: u64,
}

impl WinwordForeground {
    pub fn new() -> (r: Self)
        ensures
            r.last_unix_ms == 0,
    {
        WinwordForeground { last_unix_ms: 0 }
    }

    pub fn last_winword_foreground_unix_ms(&self) -> (r: u64)
        ensures
            r == self.last_unix_ms,
    {
        self.last_unix_ms
    }

    /// A snapshot whose executable classes as Word moves the time to `now_ms`.
    pub fn record_winword_if_class(&mut self, snap: &ForegroundSnapshot, now_ms: u64)
        ensures
            final(self).last_unix_ms == if exe_class(unicode_lower(snap.exe_token@)) == "WINWORD"@ {
                now_ms
            } else {
                old(self).last_unix_ms
            },
    {
        let l = str_to_lowercase(snap.exe_token.as_str());
        let cls = classify_exe(l.as_str());
        let c = crate::text::chars_of(cls);
        if crate::text::eq_str(c.as_slice(), "WINWORD") {
            self.last_unix_ms = now_ms;
        }
    }
}

} // verus!
