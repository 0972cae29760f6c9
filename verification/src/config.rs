//! Connection configuration: where the exchange lives and the
//! credentials used to sign requests.

use vstd::prelude::*;

verus! {

/// The three values every signed call needs: the REST base URL, the
/// API key sent as a header, and the secret the signature is computed
/// from.
pub struct Config {
    pub base_url: String,
    pub api_key: String,
    pub api_secret: String,
}

impl Config {
    pub fn new(base_url: String, api_key: String, api_secret: String) -> (c: Config)
        ensures
            c.base_url@ == base_url@,
            c.api_key@ == api_key@,
            c.api_secret@ == api_secret@,
    {
        Config { base_url, api_key, api_secret }
    }
}

} // verus!
