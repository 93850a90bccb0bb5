//! The API key issued to a plugin or an outside caller.
//!
//! Only the type stands here; hashing, signatures, a registry and validation
//! of keys lie outside this crate.

use vstd::prelude::*;
use vstd::std_specs::cmp::PartialEqSpec;

verus! {

/// An API key. Its text is a secret: the textual forms of a key never show it.
#[derive(Clone, Eq, Hash)]
pub struct ApiKey(String);

impl View for ApiKey {
    type V = Seq<char>;

    /// The secret text of the key.
    closed spec fn view(&self) -> Seq<char> {
        self.0@
    }
}

impl PartialEq for ApiKey {
    fn eq(&self, other: &ApiKey) -> (r: bool) {
        self.0 == other.0
    }
}

impl vstd::std_specs::cmp::PartialEqSpecImpl for ApiKey {
    open spec fn obeys_eq_spec() -> bool {
        true
    }

    open spec fn eq_spec(&self, other: &ApiKey) -> bool {
        self@ == other@
    }
}

impl ApiKey {
    pub fn new(raw: String) -> (k: ApiKey)
        ensures
            k@ == raw@,
    {
        ApiKey(raw)
    }

    /// The raw secret, for comparison and validation only.
    pub fn expose_secret(&self) -> (s: &str)
        ensures
            s@ == self@,
    {
        self.0.as_str()
    }

    /// The text that `Display` shows of a key: a mask, whatever the secret.
    pub fn to_string(&self) -> (s: String)
        ensures
            s@ == "***masked***"@,
    {
        "***masked***".to_string()
    }

    /// The text that `Debug` shows of a key: a mask, whatever the secret.
    pub fn debug_string(&self) -> (s: String)
        ensures
            s@ == "ApiKey(***masked***)"@,
    {
        "ApiKey(***masked***)".to_string()
    }
}

/// Two keys are equal exactly when their secrets are; equality of keys is
/// therefore an equivalence.
pub proof fn lemma_keys_equal_exactly_when_secrets_equal(a: ApiKey, b: ApiKey)
    ensures
        a.eq_spec(&b) <==> a@ == b@,
        a.eq_spec(&a),
        a.eq_spec(&b) <==> b.eq_spec(&a),
{
}

} // verus!
