//! Where a captured file came from, for upload payloads: the foreground application and
//! window when known, else the watch folder's rule and the file name.
use vstd::prelude::*;
use crate::services::foreground_telemetry::ForegroundSnapshot;
use crate::text::{eq_ignore_ascii_case, trim};

verus! {

pub struct CaptureContext {
    pub source_app: String,
    pub window_title: String,
    pub foreground_sampled_at_unix_ms: Option<i64>,
    pub watch_folder_rule: Option<String>,
    pub trigger_kind: Option<String>,
}

/// A blank field or `unknown` (any ASCII case) carries no information.
pub open spec fn unknown_field(s: Seq<char>) -> bool {
    trim(s).len() == 0 || eq_ignore_ascii_case(trim(s), "unknown"@)
}

pub fn is_unknown_field(s: &str) -> (b: bool)
    ensures
        b == unknown_field(s@),
{
    let t = crate::text::trim_chars(s);
    t.len() == 0 || crate::text::eq_ignore_ascii_case_str(t.as_slice(), "unknown")
}

pub open spec fn opt_text(o: Option<String>) -> Option<Seq<char>> {
    match o {
        Some(s) => Some(s@),
        None => None,
    }
}

/// The context sampled from the foreground window at `sampled_at`: the application name
/// (else the executable name, else `unknown`) and the title (else `unknown`); without a
/// window, both `unknown`.
pub open spec fn foreground_context(snap: Option<ForegroundSnapshot>) -> (Seq<char>, Seq<char>) {
    match snap {
        Some(s) => (
            if trim(s.app_name@).len() == 0 {
                if trim(s.exe_token@).len() == 0 {
                    "unknown"@
                } else {
                    s.exe_token@
                }
            } else {
                s.app_name@
            },
            if trim(s.title_short@).len() == 0 {
                "unknown"@
            } else {
                s.title_short@
            },
        ),
        None => ("unknown"@, "unknown"@),
    }
}

pub fn snapshot_foreground(snap: Option<&ForegroundSnapshot>, sampled_at: i64) -> (r: CaptureContext)
    ensures
        (r.source_app@, r.window_title@) == foreground_context(
            match snap {
                Some(s) => Some(*s),
                None => None,
            },
        ),
        r.foreground_sampled_at_unix_ms == Some(sampled_at),
        r.watch_folder_rule is None,
        r.trigger_kind is None,
{
    match snap {
        Some(s) => {
            let source_app = if crate::text::is_blank(s.app_name.as_str()) {
                if crate::text::is_blank(s.exe_token.as_str()) {
                    String::from_str("unknown")
                } else {
                    s.exe_token.clone()
                }
            } else {
                s.app_name.clone()
            };
            let window_title = if crate::text::is_blank(s.title_short.as_str()) {
                String::from_str("unknown")
            } else {
                s.title_short.clone()
            };
            CaptureContext {
                source_app,
                window_title,
                foreground_sampled_at_unix_ms: Some(sampled_at),
                watch_folder_rule: None,
                trigger_kind: None,
            }
        },
        None => CaptureContext {
            source_app: String::from_str("unknown"),
            window_title: String::from_str("unknown"),
            foreground_sampled_at_unix_ms: Some(sampled_at),
            watch_folder_rule: None,
            trigger_kind: None,
        },
    }
}

/// The file name of a path, `document.pdf` without one.
pub open spec fn display_name(path: Seq<char>) -> Seq<char> {
    match crate::paths::file_name(path) {
        Some(n) => n,
        None => "document.pdf"@,
    }
}

fn display_name_of(path: &str) -> (r: String)
    ensures
        r@ == display_name(path@),
{
    let v = crate::text::chars_of(path);
    match crate::paths::file_name_exec(v.as_slice()) {
        Some(n) => crate::text::string_of(n.as_slice()),
        None => String::from_str("document.pdf"),
    }
}

/// A usable rule: `watched_folder` for a blank or `unknown` one.
pub open spec fn fallback_rule(rule: Seq<char>) -> Seq<char> {
    if rule.len() == 0 || rule == "unknown"@ {
        "watched_folder"@
    } else {
        rule
    }
}

/// The rule a capture is attributed to: an explicit rule unless blank or `unknown`, else
/// the rule of the watch root the path falls under (when it is not `unknown`).
pub open spec fn chosen_rule(explicit: Option<Seq<char>>, resolved: Option<Seq<char>>) -> Option<Seq<char>> {
    match explicit {
        Some(r) if r.len() > 0 && r != "unknown"@ => Some(r),
        _ => match resolved {
            Some(r) if r != "unknown"@ => Some(r),
            _ => None,
        },
    }
}

/// The context of a capture: the foreground sample with the trigger; with a rule, that
/// rule, and when the foreground told nothing, `folder:{rule}` and the file name (only
/// the title when just it is unknown); without a rule and an uninformative foreground,
/// `folder:watched_folder`, the file name and that rule.
pub open spec fn built_context(
    fg: (Seq<char>, Seq<char>),
    path: Option<Seq<char>>,
    rule: Option<Seq<char>>,
) -> (Seq<char>, Seq<char>, Option<Seq<char>>) {
    let (app, title) = fg;
    match rule {
        Some(r) => if unknown_field(app) && unknown_field(title) {
            match path {
                Some(p) => ("folder:"@ + fallback_rule(r), display_name(p), Some(r)),
                None => (app, title, Some(r)),
            }
        } else if unknown_field(title) {
            match path {
                Some(p) => (app, display_name(p), Some(r)),
                None => (app, title, Some(r)),
            }
        } else {
            (app, title, Some(r))
        },
        None => if unknown_field(app) && unknown_field(title) {
            match path {
                Some(p) => ("folder:watched_folder"@, display_name(p), Some("watched_folder"@)),
                None => (app, title, None),
            }
        } else {
            (app, title, None)
        },
    }
}

/// Builds a capture context from the foreground sample (see `built_context`);
/// `resolved_rule` is the rule of the watch root the path falls under.
pub fn build_capture_context(
    foreground: CaptureContext,
    path: Option<&str>,
    trigger_kind: &str,
    explicit_rule: Option<&str>,
    resolved_rule: Option<&str>,
) -> (r: CaptureContext)
    ensures
        ({
            let rule = chosen_rule(
                match explicit_rule {
                    Some(e) => Some(e@),
                    None => None,
                },
                match resolved_rule {
                    Some(e) => Some(e@),
                    None => None,
                },
            );
            let b = built_context(
                (foreground.source_app@, foreground.window_title@),
                match path {
                    Some(p) => Some(p@),
                    None => None,
                },
                rule,
            );
            &&& r.source_app@ == b.0
            &&& r.window_title@ == b.1
            &&& opt_text(r.watch_folder_rule) == b.2
        }),
        opt_text(r.trigger_kind) == Some(trigger_kind@),
        r.foreground_sampled_at_unix_ms == foreground.foreground_sampled_at_unix_ms,
{
    let mut ctx = foreground;
    ctx.trigger_kind = Some(String::from_str(trigger_kind));
    let mut rule: Option<String> = None;
    match explicit_rule {
        Some(r) => {
            if !r.is_empty() && !eq_lit(r, "unknown") {
                rule = Some(String::from_str(r));
            }
        },
        None => {},
    }
    if rule.is_none() {
        match resolved_rule {
            Some(r) => {
                if !eq_lit(r, "unknown") {
                    rule = Some(String::from_str(r));
                }
            },
            None => {},
        }
    }
    let app_unknown = is_unknown_field(ctx.source_app.as_str());
    let title_unknown = is_unknown_field(ctx.window_title.as_str());
    match rule {
        Some(r) => {
            if app_unknown && title_unknown {
                if let Some(p) = path {
                    let rv = crate::text::chars_of(r.as_str());
                    let fb = if rv.len() == 0 || crate::text::eq_str(rv.as_slice(), "unknown") {
                        String::from_str("watched_folder")
                    } else {
                        r.clone()
                    };
                    let mut a = String::from_str("folder:");
                    a.append(fb.as_str());
                    ctx.source_app = a;
                    ctx.window_title = display_name_of(p);
                }
            } else if title_unknown {
                if let Some(p) = path {
                    ctx.window_title = display_name_of(p);
                }
            }
            ctx.watch_folder_rule = Some(r);
        },
        None => {
            if app_unknown && title_unknown {
                if let Some(p) = path {
                    ctx.source_app = String::from_str("folder:watched_folder");
                    ctx.window_title = display_name_of(p);
                    ctx.watch_folder_rule = Some(String::from_str("watched_folder"));
                } else {
                    ctx.watch_folder_rule = None;
                }
            } else {
                ctx.watch_folder_rule = None;
            }
        },
    }
    ctx
}

fn eq_lit(s: &str, lit: &str) -> (b: bool)
    ensures
        b == (s@ == lit@),
{
    let v = crate::text::chars_of(s);
    crate::text::eq_str(v.as_slice(), lit)
}

} // verus!
