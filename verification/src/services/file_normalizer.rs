//! Consolidating a file saved elsewhere into FileWisely Incoming: where its copy goes.
//! Copying is the caller's.
use vstd::prelude::*;
use crate::paths::{file_name, path_join};

verus! {

/// The copy of `input_path` in Incoming, under the same name; refused when the input is
/// not a file or has no file name.
pub fn normalize_into_incoming(input_path: &str, is_file: bool) -> (r: Result<String, String>)
    ensures
        !is_file ==> (r matches Err(e) && e@ == "File not found"@),
        is_file ==> match file_name(input_path@) {
            None => r matches Err(e) && e@ == "Invalid file name"@,
            Some(n) => r matches Ok(p) && p@ == path_join("C:\\FileWisely\\Incoming"@, n),
        },
{
    if !is_file {
        return Err(String::from_str("File not found"));
    }
    let v = crate::text::chars_of(input_path);
    match crate::paths::file_name_exec(v.as_slice()) {
        None => Err(String::from_str("Invalid file name")),
        Some(n) => {
            let d = crate::text::chars_of(crate::config::print_config::FW_OUTPUT_DIR);
            proof {
                reveal_strlit("C:\\FileWisely\\Incoming");
            }
            let j = crate::paths::join_chars(d.as_slice(), n.as_slice());
            Ok(crate::text::string_of(j.as_slice()))
        },
    }
}

} // verus!
