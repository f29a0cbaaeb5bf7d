//! Global kill-switch for user-visible popups (MessageBox, toasts, alerts).
use vstd::prelude::*;
use crate::text::{eq_ignore_ascii_case, eq_ignore_ascii_case_str, eq_str, trim, trim_chars};

verus! {

pub struct PopupSuppression {
    pub suppress_all: bool,
}

/// `UCE_SUPPRESS_ALL_POPUPS` (trimmed): `0`/`false` never suppress, `1`/`true` always;
/// anything else (or unset) leaves the stored setting.
pub open spec fn effective_spec(stored: bool, env: Option<Seq<char>>) -> bool {
    match env {
        Some(v) => {
            let t = trim(v);
            if t == "0"@ || eq_ignore_ascii_case(t, "false"@) {
                false
            } else if t == "1"@ || eq_ignore_ascii_case(t, "true"@) {
                true
            } else {
                stored
            }
        },
        None => stored,
    }
}

impl PopupSuppression {
    /// Release builds start suppressed until the UI refines the setting.
    pub fn init_defaults_for_build_profile(&mut self, release_build: bool)
        ensures
            final(self).suppress_all == release_build,
    {
        self.suppress_all = release_build;
    }

    pub fn set_from_js(&mut self, v: bool)
        ensures
            final(self).suppress_all == v,
    {
        self.suppress_all = v;
    }

    /// Whether popups are suppressed, given the environment override.
    pub fn suppress_all_effective(&self, env_value: Option<&str>) -> (b: bool)
        ensures
            b == effective_spec(self.suppress_all, crate::config::print_config::opt_str(env_value)),
    {
        match env_value {
            Some(v) => {
                let t = trim_chars(v);
                if eq_str(t.as_slice(), "0") || eq_ignore_ascii_case_str(t.as_slice(), "false") {
                    return false;
                }
                if eq_str(t.as_slice(), "1") || eq_ignore_ascii_case_str(t.as_slice(), "true") {
                    return true;
                }
                self.suppress_all
            },
            None => self.suppress_all,
        }
    }
}

} // verus!
