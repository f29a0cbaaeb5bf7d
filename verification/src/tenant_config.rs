//! Per-machine tenant: `business_id`, and optional `backend_url` + `anon_key`
//! (from `uce://connect?...` or the installer).
use vstd::prelude::*;
use crate::text::{is_blank, string_of, trim, trim_chars, trim_string};

verus! {

pub struct TenantConfig {
    pub business_id: String,
    /// Ingest (uce-ingest) URL.
    pub backend_url: String,
    /// Supabase anon key (Bearer + apikey).
    pub anon_key: String,
}

impl Default for TenantConfig {
    fn default() -> (r: Self)
        ensures
            r.business_id@ == Seq::<char>::empty(),
            r.backend_url@ == Seq::<char>::empty(),
            r.anon_key@ == Seq::<char>::empty(),
    {
        TenantConfig { business_id: String::new(), backend_url: String::new(), anon_key: String::new() }
    }
}

impl Clone for TenantConfig {
    fn clone(&self) -> (r: Self)
        ensures
            r.business_id@ == self.business_id@,
            r.backend_url@ == self.backend_url@,
            r.anon_key@ == self.anon_key@,
    {
        TenantConfig {
            business_id: self.business_id.clone(),
            backend_url: self.backend_url.clone(),
            anon_key: self.anon_key.clone(),
        }
    }
}

/// All three identity fields are set (not blank).
pub open spec fn configured(c: TenantConfig) -> bool {
    trim(c.business_id@).len() > 0 && trim(c.backend_url@).len() > 0 && trim(c.anon_key@).len() > 0
}

impl TenantConfig {
    /// Business id, backend URL and anon key are all present.
    pub fn is_configured(&self) -> (b: bool)
        ensures
            b == configured(*self),
    {
        !is_blank(self.business_id.as_str()) && !is_blank(self.backend_url.as_str())
            && !is_blank(self.anon_key.as_str())
    }

    /// The trimmed business id, `None` when blank.
    pub fn business_id_value(&self) -> (r: Option<String>)
        ensures
            match r {
                Some(id) => id@ == trim(self.business_id@) && id@.len() > 0,
                None => trim(self.business_id@).len() == 0,
            },
    {
        let t = trim_chars(self.business_id.as_str());
        if t.len() == 0 {
            None
        } else {
            Some(string_of(t.as_slice()))
        }
    }

    /// The configuration with `business_id` replaced by its trimmed value;
    /// an error when it is blank.
    pub fn with_business_id(&self, business_id: &str) -> (r: Result<TenantConfig, String>)
        ensures
            match r {
                Ok(c) => trim(business_id@).len() > 0 && c.business_id@ == trim(business_id@)
                    && c.backend_url@ == self.backend_url@ && c.anon_key@ == self.anon_key@,
                Err(e) => trim(business_id@).len() == 0 && e@ == "business_id is empty"@,
            },
    {
        if is_blank(business_id) {
            return Err(String::from_str("business_id is empty"));
        }
        let mut c = self.clone();
        c.business_id = trim_string(business_id);
        Ok(c)
    }

    /// `uce://connect`: sets `business_id`; a given, non-blank `backend_url` / `anon_key`
    /// replaces the stored one (trimmed), otherwise the stored one stays.
    pub fn with_connect(
        &self,
        business_id: &str,
        backend_url: Option<&str>,
        anon_key: Option<&str>,
    ) -> (r: Result<TenantConfig, String>)
        ensures
            match r {
                Ok(c) => {
                    &&& trim(business_id@).len() > 0
                    &&& c.business_id@ == trim(business_id@)
                    &&& c.backend_url@ == connect_field(self.backend_url@, backend_url)
                    &&& c.anon_key@ == connect_field(self.anon_key@, anon_key)
                },
                Err(e) => trim(business_id@).len() == 0 && e@ == "business_id is empty"@,
            },
    {
        let mut c = match self.with_business_id(business_id) {
            Ok(c) => c,
            Err(e) => return Err(e),
        };
        if let Some(u) = backend_url {
            if !is_blank(u) {
                c.backend_url = trim_string(u);
            }
        }
        if let Some(k) = anon_key {
            if !is_blank(k) {
                c.anon_key = trim_string(k);
            }
        }
        Ok(c)
    }
}

/// A connect field: the trimmed new value when given and not blank, else the stored one.
pub open spec fn connect_field(stored: Seq<char>, given: Option<&str>) -> Seq<char> {
    match given {
        Some(v) => if trim(v@).len() > 0 {
            trim(v@)
        } else {
            stored
        },
        None => stored,
    }
}

} // verus!
