//! The silent Bullzip settings (no Save As, no open-after-print) and where they are
//! written: the per-user `%APPDATA%` file always, the `%ProgramData%` ones when those
//! variables are set.
use vstd::prelude::*;
use crate::paths::path_join;

verus! {

/// The `Output=` value: `C:\FileWisely\Incoming\<date>_<time>_<docname>.pdf`.
pub open spec fn output_line() -> Seq<char> {
    "C:\\FileWisely\\Incoming"@ + "\\<date>_<time>_<docname>.pdf"@
}

/// The whole settings file.
pub open spec fn ini_text() -> Seq<char> {
    "[PDF Printer]\nOutput="@ + output_line()
        + "\nShowSaveAS=never\nShowSettings=never\nShowPDF=no\nConfirmOverwrite=no\nDisableOptionDialog=yes\nOpenFolder=no\nOpenPDF=no\n"@
}

/// `FW_OUTPUT_DIR` without trailing separators, then the Bullzip file-name pattern.
pub fn incoming_output_line() -> (r: String)
    ensures
        r@ == output_line(),
{
    // The Incoming folder constant carries no trailing separator to trim.
    let d = crate::text::chars_of(crate::config::print_config::FW_OUTPUT_DIR);
    proof {
        reveal_strlit("C:\\FileWisely\\Incoming");
    }
    let mut s = crate::text::string_of(d.as_slice());
    s.append("\\<date>_<time>_<docname>.pdf");
    s
}

pub fn ini_body() -> (r: String)
    ensures
        r@ == ini_text(),
{
    let mut s = String::from_str("[PDF Printer]\nOutput=");
    let o = incoming_output_line();
    s.append(o.as_str());
    s.append(
        "\nShowSaveAS=never\nShowSettings=never\nShowPDF=no\nConfirmOverwrite=no\nDisableOptionDialog=yes\nOpenFolder=no\nOpenPDF=no\n",
    );
    s
}

pub open spec fn join3(a: Seq<char>, b: Seq<char>, c: Seq<char>, d: Seq<char>) -> Seq<char> {
    path_join(path_join(path_join(a, b), c), d)
}

/// The settings files, in write order: under `%ProgramData%` the FileWisely and Bullzip
/// global files, then under `%APPDATA%` the per-user file.
pub open spec fn ini_paths(program_data: Option<Seq<char>>, appdata: Option<Seq<char>>) -> Seq<Seq<char>> {
    let pd = match program_data {
        Some(p) => seq![
            join3(p, "PDF Writer"@, "FileWisely Printer"@, "global.ini"@),
            join3(p, "PDF Writer"@, "Bullzip PDF Printer"@, "global.ini"@),
            join3(p, "Bullzip"@, "PDF Printer"@, "global.ini"@),
        ],
        None => Seq::empty(),
    };
    let ad = match appdata {
        Some(a) => seq![join3(a, "Bullzip"@, "PDF Printer"@, "settings.ini"@)],
        None => Seq::empty(),
    };
    pd + ad
}

fn join_str(base: &[char], seg: &str) -> (r: Vec<char>)
    ensures
        r@ == path_join(base@, seg@),
{
    let s = crate::text::chars_of(seg);
    crate::paths::join_chars(base, s.as_slice())
}

/// The files to write with the silent settings, each with the text it gets.
pub fn ensure_silent_bullzip_ini(program_data: Option<&str>, appdata: Option<&str>) -> (r: Vec<(String, String)>)
    ensures
        r@.len() == ini_paths(
            match program_data {
                Some(p) => Some(p@),
                None => None,
            },
            match appdata {
                Some(a) => Some(a@),
                None => None,
            },
        ).len(),
        forall|i: int|
            0 <= i < r@.len() ==> (#[trigger] r@[i]).0@ == ini_paths(
                match program_data {
                    Some(p) => Some(p@),
                    None => None,
                },
                match appdata {
                    Some(a) => Some(a@),
                    None => None,
                },
            )[i] && r@[i].1@ == ini_text(),
{
    let ghost pdv = match program_data {
        Some(p) => Some(p@),
        None => None,
    };
    let ghost adv = match appdata {
        Some(a) => Some(a@),
        None => None,
    };
    let ghost want = ini_paths(pdv, adv);
    let mut out: Vec<(String, String)> = Vec::new();
    let mut paths: Vec<Vec<char>> = Vec::new();
    if let Some(pd) = program_data {
        let p = crate::text::chars_of(pd);
        let w = join_str(p.as_slice(), "PDF Writer");
        let a1 = join_str(w.as_slice(), "FileWisely Printer");
        let a2 = join_str(a1.as_slice(), "global.ini");
        let b1 = join_str(w.as_slice(), "Bullzip PDF Printer");
        let b2 = join_str(b1.as_slice(), "global.ini");
        let c1 = join_str(p.as_slice(), "Bullzip");
        let c2 = join_str(c1.as_slice(), "PDF Printer");
        let c3 = join_str(c2.as_slice(), "global.ini");
        paths.push(a2);
        paths.push(b2);
        paths.push(c3);
    }
    if let Some(ad) = appdata {
        let a = crate::text::chars_of(ad);
        let x1 = join_str(a.as_slice(), "Bullzip");
        let x2 = join_str(x1.as_slice(), "PDF Printer");
        let x3 = join_str(x2.as_slice(), "settings.ini");
        paths.push(x3);
    }
    assert(crate::paths::vviews(paths@) =~= want);
    let mut i: usize = 0;
    while i < paths.len()
        invariant
            i <= paths.len(),
            crate::paths::vviews(paths@) == want,
            out@.len() == i,
            forall|k: int| 0 <= k < i ==> (#[trigger] out@[k]).0@ == want[k] && out@[k].1@ == ini_text(),
        decreases paths.len() - i,
    {
        let path = crate::text::string_of(paths[i].as_slice());
        assert(path@ == want[i as int]);
        let body = ini_body();
        out.push((path, body));
        i = i + 1;
    }
    out
}

} // verus!
