//! The JetStream context: a client handle and the API subject prefix.
use vstd::prelude::*;

verus! {

/// The entry point to the JetStream API, shared by every message it delivers.
///
/// `C` is the connection handle that performs the network calls; this crate
/// only carries it.
pub struct Context<C> {
    pub client: C,
    /// The subject prefix of API requests, `$JS.API` unless configured.
    pub prefix: String,
}

/// The API prefix of a context configured for `domain`.
pub open spec fn domain_prefix(domain: Seq<char>) -> Seq<char> {
    "$JS."@ + domain + ".API"@
}

/// Creates a context with the default API prefix `$JS.API`.
pub fn new<C>(client: C) -> (r: Context<C>)
    ensures
        r.client == client,
        r.prefix@ == "$JS.API"@,
{
    Context { client, prefix: String::from_str("$JS.API") }
}

/// Creates a context whose API requests go to the given JetStream domain,
/// under the prefix `$JS.<domain>.API`.
pub fn with_domain<C>(client: C, domain: &str) -> (r: Context<C>)
    ensures
        r.client == client,
        r.prefix@ == domain_prefix(domain@),
{
    let prefix = String::from_str("$JS.").concat(domain).concat(".API");
    Context { client, prefix }
}

/// Creates a context with the given API prefix.
pub fn with_prefix<C>(client: C, prefix: &str) -> (r: Context<C>)
    ensures
        r.client == client,
        r.prefix@ == prefix@,
{
    Context { client, prefix: String::from_str(prefix) }
}

} // verus!
