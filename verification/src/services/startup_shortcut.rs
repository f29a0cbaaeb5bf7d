//! The per-user Startup shortcut that relaunches the agent after a reboot, and the
//! `HKCU\...\Run` value that backs it up: the PowerShell script and registry value built
//! from the executable's path.
use vstd::prelude::*;
use crate::ccc_import_settings::{ps_escape as ps_quoted, ps_escape_single_quoted as escape_ps_single_quoted};
use crate::paths::path_join;

verus! {

/// The shortcut file under `%APPDATA%`.
pub open spec fn startup_lnk(appdata: Seq<char>) -> Seq<char> {
    path_join(appdata, "Microsoft\\Windows\\Start Menu\\Programs\\Startup\\FileWisely UCE.lnk"@)
}

/// The script that creates or updates the shortcut.
pub open spec fn shortcut_script_text(lnk: Seq<char>, target: Seq<char>, work_dir: Seq<char>) -> Seq<char> {
    "$w = New-Object -ComObject WScript.Shell; $s = $w.CreateShortcut('"@ + ps_quoted(lnk)
        + "'); $s.TargetPath = '"@ + ps_quoted(target) + "'; $s.WorkingDirectory = '"@ + ps_quoted(
        work_dir,
    ) + "'; $s.Description = 'FileWisely Universal Capture Engine'; $s.Save()"@
}

/// The text without its double quotes.
pub open spec fn strip_quotes(s: Seq<char>) -> Seq<char> {
    s.filter(|c: char| c != '"')
}

/// The `Run` value: the executable path, its double quotes removed, in double quotes.
pub open spec fn run_value_text(target: Seq<char>) -> Seq<char> {
    "\""@ + strip_quotes(target) + "\""@
}

/// What creating the autostart entries takes.
pub struct ShortcutPlan {
    /// The shortcut file, which is also the success value.
    pub lnk_path: String,
    /// The PowerShell script that writes the shortcut.
    pub script: String,
    /// The data of the `FileWiselyUCE` value under `HKCU\...\Run`.
    pub run_value: String,
}

/// The autostart plan for the executable `exe` (whose folder is `work_dir`) under the
/// user's `%APPDATA%`.
pub fn ensure_filewisely_uce_shortcut(exe: &str, work_dir: &str, appdata: &str) -> (r: ShortcutPlan)
    ensures
        r.lnk_path@ == startup_lnk(appdata@),
        r.script@ == shortcut_script_text(startup_lnk(appdata@), exe@, work_dir@),
        r.run_value@ == run_value_text(exe@),
{
    let a = crate::text::chars_of(appdata);
    let seg = crate::text::chars_of("Microsoft\\Windows\\Start Menu\\Programs\\Startup\\FileWisely UCE.lnk");
    let l = crate::paths::join_chars(a.as_slice(), seg.as_slice());
    let lnk = crate::text::string_of(l.as_slice());
    let mut s = String::from_str("$w = New-Object -ComObject WScript.Shell; $s = $w.CreateShortcut('");
    let e1 = escape_ps_single_quoted(lnk.as_str());
    s.append(e1.as_str());
    s.append("'); $s.TargetPath = '");
    let e2 = escape_ps_single_quoted(exe);
    s.append(e2.as_str());
    s.append("'; $s.WorkingDirectory = '");
    let e3 = escape_ps_single_quoted(work_dir);
    s.append(e3.as_str());
    s.append("'; $s.Description = 'FileWisely Universal Capture Engine'; $s.Save()");
    let v = crate::text::chars_of(exe);
    let mut q: Vec<char> = Vec::new();
    q.push('"');
    let mut i: usize = 0;
    while i < v.len()
        invariant
            i <= v.len(),
            v@ == exe@,
            q@ == seq!['"'] + strip_quotes(v@.take(i as int)),
        decreases v.len() - i,
    {
        proof {
            assert(v@.take(i + 1) =~= v@.take(i as int).push(v@[i as int]));
            v@.take(i as int).lemma_filter_push(v@[i as int], |c: char| c != '"');
        }
        if v[i] != '"' {
            q.push(v[i]);
        }
        assert(q@ =~= seq!['"'] + strip_quotes(v@.take(i + 1)));
        i = i + 1;
    }
    q.push('"');
    assert(v@.take(v.len() as int) =~= v@);
    proof {
        reveal_strlit("\"");
    }
    assert(q@ =~= run_value_text(exe@));
    ShortcutPlan { lnk_path: lnk, script: s, run_value: crate::text::string_of(q.as_slice()) }
}

/// The error when PowerShell did not create the shortcut: its exit code as `{:?}` shows
/// an `Option<i32>`.
pub open spec fn exit_error_text(code: Option<i32>) -> Seq<char> {
    "Startup shortcut: powershell exited with "@ + match code {
        Some(c) => "Some("@ + crate::text::decimal_int(c as int) + ")"@,
        None => "None"@,
    }
}

pub fn shortcut_exit_error(code: Option<i32>) -> (r: String)
    ensures
        r@ == exit_error_text(code),
{
    let mut s = String::from_str("Startup shortcut: powershell exited with ");
    match code {
        Some(c) => {
            s.append("Some(");
            let d = crate::text::i64_to_string(c as i64);
            s.append(d.as_str());
            s.append(")");
        },
        None => {
            s.append("None");
        },
    }
    s
}

} // verus!
