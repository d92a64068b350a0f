use vstd::prelude::*;

use crate::body::{body_entries, body_map, keys_unique, pair_views};
use crate::kv::KvPair;

verus! {

/// One request to send: a GET with no body, or a POST whose JSON object body is
/// built from the pairs.
pub enum RequestArgs {
    Get { url: String },
    Post { url: String, body: Vec<KvPair> },
}

impl RequestArgs {
    /// The target URL.
    pub fn url(&self) -> (r: &String)
        ensures
            r == match self {
                RequestArgs::Get { url } => url,
                RequestArgs::Post { url, .. } => url,
            },
    {
        match self {
            RequestArgs::Get { url } => url,
            RequestArgs::Post { url, .. } => url,
        }
    }

    /// The members of the JSON body to send: none for a GET; for a POST one
    /// member per key, the last pair with that key giving its value.
    pub fn json_body(&self) -> (r: Option<Vec<KvPair>>)
        ensures
            match self {
                RequestArgs::Get { .. } => r is None,
                RequestArgs::Post { body, .. } => r matches Some(b) && keys_unique(pair_views(b@))
                    && body_map(pair_views(b@)) == body_map(pair_views(body@)),
            },
    {
        match self {
            RequestArgs::Get { .. } => None,
            RequestArgs::Post { body, .. } => Some(body_entries(body)),
        }
    }
}

} // verus!
