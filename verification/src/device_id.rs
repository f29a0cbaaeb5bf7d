//! The stable device id shared with the web view: what the stored file holds and what is
//! stored. The file itself is the caller's.
use vstd::prelude::*;
use crate::text::trim;

verus! {

/// The id in the stored file: its trimmed text, none when blank.
pub fn load_device_id(raw: &str) -> (r: Option<String>)
    ensures
        trim(raw@).len() == 0 ==> r is None,
        trim(raw@).len() > 0 ==> (r matches Some(s) && s@ == trim(raw@)),
{
    let t = crate::text::trim_string(raw);
    if t.as_str().is_empty() {
        None
    } else {
        Some(t)
    }
}

/// The text stored for an id: trimmed, refused when blank.
pub fn save_device_id(device_id: &str) -> (r: Result<String, String>)
    ensures
        trim(device_id@).len() == 0 ==> (r matches Err(e) && e@ == "device_id is empty"@),
        trim(device_id@).len() > 0 ==> (r matches Ok(s) && s@ == trim(device_id@)),
{
    let t = crate::text::trim_string(device_id);
    if t.as_str().is_empty() {
        Err(String::from_str("device_id is empty"))
    } else {
        Ok(t)
    }
}

/// The id for the web view, or `device_id not set`.
pub fn uce_get_device_id(loaded: Option<String>) -> (r: Result<String, String>)
    ensures
        match loaded {
            Some(s) => r matches Ok(t) && t@ == s@,
            None => r matches Err(e) && e@ == "device_id not set"@,
        },
{
    match loaded {
        Some(s) => Ok(s),
        None => Err(String::from_str("device_id not set")),
    }
}

} // verus!
