//! CCC Import folder setting (`settings.json` next to the tenant config) and first-run rules.
use vstd::prelude::*;
use crate::paths::trim_end_seps;
use crate::text::{chars_of, is_blank, string_of, trim, trim_chars};

verus! {

pub const DEFAULT_CCC_PACKAGE_ROOT: &'static str = "C:\\FileWisely\\CCC Import";

pub struct SidekickSettings {
    pub ccc_package_root: String,
    pub first_run_completed: bool,
}

impl Default for SidekickSettings {
    fn default() -> (r: Self)
        ensures
            r.ccc_package_root@ == Seq::<char>::empty(),
            !r.first_run_completed,
    {
        SidekickSettings { ccc_package_root: String::new(), first_run_completed: false }
    }
}

/// A root path: trimmed, trailing `\` and `/` removed.
pub open spec fn normalized_root(p: Seq<char>) -> Seq<char> {
    trim_end_seps(trim(p))
}

/// The configured CCC Import root, normalized; `None` when not set.
pub open spec fn effective_root(s: SidekickSettings) -> Option<Seq<char>> {
    if trim(s.ccc_package_root@).len() == 0 {
        None
    } else {
        Some(normalized_root(trim(s.ccc_package_root@)))
    }
}

fn trim_end_seps_exec(v: Vec<char>) -> (r: Vec<char>)
    ensures
        r@ == trim_end_seps(v@),
{
    let mut r = v;
    while r.len() > 0 && (r[r.len() - 1] == '/' || r[r.len() - 1] == '\\')
        invariant
            trim_end_seps(v@) == trim_end_seps(r@),
        decreases r.len(),
    {
        let ghost before = r@;
        r.pop();
        assert(before.drop_last() =~= r@);
    }
    r
}

/// A root path with surrounding whitespace and trailing separators removed.
pub fn normalize_root_path(path: &str) -> (r: String)
    ensures
        r@ == normalized_root(path@),
{
    let t = trim_chars(path);
    let n = trim_end_seps_exec(t);
    string_of(n.as_slice())
}

/// The configured CCC Import root (normalized), `None` when not set.
pub fn effective_ccc_package_root(settings: &SidekickSettings) -> (r: Option<String>)
    ensures
        match r {
            Some(p) => effective_root(*settings) == Some(p@),
            None => effective_root(*settings) is None,
        },
{
    let root = trim_chars(settings.ccc_package_root.as_str());
    if root.len() == 0 {
        None
    } else {
        let s = string_of(root.as_slice());
        Some(normalize_root_path(s.as_str()))
    }
}

/// First launch still has to ask for the CCC Import root.
pub open spec fn needs_first_run(s: SidekickSettings) -> bool {
    !(s.first_run_completed && effective_root(s) is Some)
}

/// Whether the first-run folder prompt is still owed.
pub fn first_run_pending(settings: &SidekickSettings) -> (b: bool)
    ensures
        b == needs_first_run(*settings),
{
    !(settings.first_run_completed && effective_ccc_package_root(settings).is_some())
}

/// The folder offered first by the first-run prompt: the stored root, or the default.
pub fn first_run_initial_folder(settings: &SidekickSettings) -> (r: String)
    ensures
        r@ == if trim(settings.ccc_package_root@).len() == 0 {
            DEFAULT_CCC_PACKAGE_ROOT@
        } else {
            settings.ccc_package_root@
        },
{
    if is_blank(settings.ccc_package_root.as_str()) {
        String::from_str(DEFAULT_CCC_PACKAGE_ROOT)
    } else {
        settings.ccc_package_root.clone()
    }
}

/// The settings after choosing `root`: normalized root stored, first run completed;
/// an error when the normalized path is empty.
pub fn settings_with_root(settings: &SidekickSettings, root: &str) -> (r: Result<
    SidekickSettings,
    String,
>)
    ensures
        match r {
            Ok(s) => normalized_root(root@).len() > 0 && s.ccc_package_root@ == normalized_root(
                root@,
            ) && s.first_run_completed,
            Err(e) => normalized_root(root@).len() == 0 && e@
                == "CCC Import folder path is empty"@,
        },
{
    let n = normalize_root_path(root);
    let v = chars_of(n.as_str());
    if v.len() == 0 {
        return Err(String::from_str("CCC Import folder path is empty"));
    }
    Ok(SidekickSettings { ccc_package_root: n, first_run_completed: true })
}

/// Escapes text for a single-quoted PowerShell string (`'` doubled).
pub open spec fn ps_escape(s: Seq<char>) -> Seq<char>
    decreases s.len(),
{
    if s.len() == 0 {
        seq![]
    } else if s.last() == '\'' {
        ps_escape(s.drop_last()) + seq!['\'', '\'']
    } else {
        ps_escape(s.drop_last()).push(s.last())
    }
}

/// `s.replace('\'', "''")`.
pub fn ps_escape_single_quoted(s: &str) -> (r: String)
    ensures
        r@ == ps_escape(s@),
{
    let v = chars_of(s);
    let mut out: Vec<char> = Vec::new();
    let mut i: usize = 0;
    while i < v.len()
        invariant
            i <= v.len(),
            v@ == s@,
            out@ == ps_escape(v@.take(i as int)),
        decreases v.len() - i,
    {
        assert(v@.take(i + 1).drop_last() =~= v@.take(i as int));
        if v[i] == '\'' {
            out.push('\'');
            out.push('\'');
        } else {
            out.push(v[i]);
        }
        i = i + 1;
    }
    assert(v@.take(v.len() as int) =~= v@);
    string_of(out.as_slice())
}


/// The PowerShell script of the folder picker: a `FolderBrowserDialog` with the given
/// description and starting folder that prints the chosen folder.
pub open spec fn folder_dialog_script_text(description: Seq<char>, initial_path: Seq<char>) -> Seq<char> {
    "Add-Type -AssemblyName System.Windows.Forms\n$d = New-Object System.Windows.Forms.FolderBrowserDialog\n$d.Description = '"@
        + ps_escape(description) + "'\n$d.SelectedPath = '"@ + ps_escape(initial_path)
        + "'\n$d.ShowNewFolderButton = $true\nif ($d.ShowDialog() -eq [System.Windows.Forms.DialogResult]::OK) { Write-Output $d.SelectedPath }"@
}

pub fn folder_dialog_script(description: &str, initial_path: &str) -> (r: String)
    ensures
        r@ == folder_dialog_script_text(description@, initial_path@),
{
    let mut s = String::from_str(
        "Add-Type -AssemblyName System.Windows.Forms\n$d = New-Object System.Windows.Forms.FolderBrowserDialog\n$d.Description = '",
    );
    let d = ps_escape_single_quoted(description);
    s.append(d.as_str());
    s.append("'\n$d.SelectedPath = '");
    let i = ps_escape_single_quoted(initial_path);
    s.append(i.as_str());
    s.append(
        "'\n$d.ShowNewFolderButton = $true\nif ($d.ShowDialog() -eq [System.Windows.Forms.DialogResult]::OK) { Write-Output $d.SelectedPath }",
    );
    s
}

/// The folder the picker returned: its trimmed output when it succeeded and printed
/// something.
pub fn pick_folder_dialog(success: bool, stdout: &str) -> (r: Option<String>)
    ensures
        !success ==> r is None,
        success ==> match r {
            Some(p) => p@ == trim(stdout@) && p@.len() > 0,
            None => trim(stdout@).len() == 0,
        },
{
    if !success {
        return None;
    }
    let t = trim_chars(stdout);
    if t.len() == 0 {
        None
    } else {
        Some(string_of(t.as_slice()))
    }
}

} // verus!
