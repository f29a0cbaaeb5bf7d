//! The single gate of native message boxes: whether one is suppressed and how it is
//! summarized for Connection Doctor. Showing the box is the caller's.
use vstd::prelude::*;
use crate::config::print_config::flag_on;
use crate::config::print_config::opt_str;
use crate::text::take_chars;

verus! {

/// `{title} | {first 400 characters of body}`.
pub fn summarize_native_dialog(title: &str, body: &str) -> (r: String)
    ensures
        r@ == title@ + " | "@ + take_chars(body@, 400),
{
    let mut r = String::from_str(title);
    r.append(" | ");
    let b = crate::text::take_string(body, 400);
    r.append(b.as_str());
    r
}

/// A box is suppressed when global popup suppression is in effect, unless
/// `UCE_ALLOW_NATIVE_MESSAGEBOX` is on (`1` or `true`).
pub fn suppress_all_native(allow_env: Option<&str>, suppress_all_effective: bool) -> (b: bool)
    ensures
        b == (!flag_on(opt_str(allow_env)) && suppress_all_effective),
{
    if crate::config::print_config::env_flag_on(allow_env) {
        return false;
    }
    suppress_all_effective
}

} // verus!
