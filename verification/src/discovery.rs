use vstd::prelude::*;

use crate::error::SdkError;

verus! {

/// OIDC discovery document (fields this SDK reads; other keys are ignored).
#[derive(Debug)]
pub struct OidcDiscoveryDocument {
    pub issuer: String,
    pub authorization_endpoint: String,
    pub token_endpoint: String,
    pub userinfo_endpoint: Option<String>,
    pub jwks_uri: Option<String>,
    pub introspection_endpoint: Option<String>,
    pub revocation_endpoint: Option<String>,
}

fn clone_opt(v: &Option<String>) -> (r: Option<String>)
    ensures
        r == *v,
{
    match v {
        Some(s) => Some(s.clone()),
        None => None,
    }
}

impl Clone for OidcDiscoveryDocument {
    fn clone(&self) -> (r: Self)
        ensures
            r == *self,
    {
        OidcDiscoveryDocument {
            issuer: self.issuer.clone(),
            authorization_endpoint: self.authorization_endpoint.clone(),
            token_endpoint: self.token_endpoint.clone(),
            userinfo_endpoint: clone_opt(&self.userinfo_endpoint),
            jwks_uri: clone_opt(&self.jwks_uri),
            introspection_endpoint: clone_opt(&self.introspection_endpoint),
            revocation_endpoint: clone_opt(&self.revocation_endpoint),
        }
    }
}

/// An optional endpoint of the document, or `SdkError::Msg` naming the
/// missing field.
fn required_endpoint(endpoint: &Option<String>, missing: &str) -> (r: Result<String, SdkError>)
    ensures
        *endpoint matches Some(u) ==> r == Ok::<String, SdkError>(u),
        *endpoint is None ==> (r matches Err(SdkError::Msg(m)) && m@ == missing@),
{
    match endpoint {
        Some(u) => Ok(u.clone()),
        None => Err(SdkError::msg(missing.to_owned())),
    }
}

impl OidcDiscoveryDocument {
    /// The `userinfo_endpoint`, required for `userinfo`.
    pub fn require_userinfo_endpoint(&self) -> (r: Result<String, SdkError>)
        ensures
            self.userinfo_endpoint matches Some(u) ==> r == Ok::<String, SdkError>(u),
            self.userinfo_endpoint is None ==> (r matches Err(SdkError::Msg(m))
                && m@ == "discovery document has no userinfo_endpoint"@),
    {
        required_endpoint(&self.userinfo_endpoint, "discovery document has no userinfo_endpoint")
    }

    /// The `introspection_endpoint`, required for `introspect`.
    pub fn require_introspection_endpoint(&self) -> (r: Result<String, SdkError>)
        ensures
            self.introspection_endpoint matches Some(u) ==> r == Ok::<String, SdkError>(u),
            self.introspection_endpoint is None ==> (r matches Err(SdkError::Msg(m))
                && m@ == "discovery document has no introspection_endpoint"@),
    {
        required_endpoint(
            &self.introspection_endpoint,
            "discovery document has no introspection_endpoint",
        )
    }

    /// The `revocation_endpoint`, required for `revoke`.
    pub fn require_revocation_endpoint(&self) -> (r: Result<String, SdkError>)
        ensures
            self.revocation_endpoint matches Some(u) ==> r == Ok::<String, SdkError>(u),
            self.revocation_endpoint is None ==> (r matches Err(SdkError::Msg(m))
                && m@ == "discovery document has no revocation_endpoint"@),
    {
        required_endpoint(
            &self.revocation_endpoint,
            "discovery document has no revocation_endpoint",
        )
    }
}

/// Default time a fetched discovery document stays fresh: 600 s, in nanoseconds.
pub const DEFAULT_DISCOVERY_TTL_NANOS: u128 = 600_000_000_000u128;

/// Age of an entry stored at `stored` when the clock reads `now`; a clock
/// reading before the store counts as age zero.
pub open spec fn entry_age(stored: u128, now: u128) -> int {
    if now >= stored {
        now - stored
    } else {
        0
    }
}

/// The document that a cache with this ttl and entry serves at `now`: the
/// stored one while it is younger than the ttl, else none.
pub open spec fn served_document(
    ttl: u128,
    entry: Option<(u128, OidcDiscoveryDocument)>,
    now: u128,
) -> Option<OidcDiscoveryDocument> {
    match entry {
        Some((stored, doc)) => if entry_age(stored, now) < ttl {
            Some(doc)
        } else {
            None
        },
        None => None,
    }
}

/// The time-to-live cache of the discovery document. Times are readings of
/// one monotonic clock, in nanoseconds, supplied by the caller.
pub struct DiscoveryCache {
    ttl_nanos: u128,
    entry: Option<(u128, OidcDiscoveryDocument)>,
}

impl DiscoveryCache {
    pub closed spec fn ttl(&self) -> u128 {
        self.ttl_nanos
    }

    pub closed spec fn entry(&self) -> Option<(u128, OidcDiscoveryDocument)> {
        self.entry
    }

    /// An empty cache whose entries stay fresh for `ttl_nanos`.
    pub fn with_ttl(ttl_nanos: u128) -> (c: DiscoveryCache)
        ensures
            c.ttl() == ttl_nanos,
            c.entry() is None,
    {
        DiscoveryCache { ttl_nanos, entry: None }
    }

    /// An empty cache with the default ttl of 600 s.
    pub fn new() -> (c: DiscoveryCache)
        ensures
            c.ttl() == DEFAULT_DISCOVERY_TTL_NANOS,
            c.entry() is None,
    {
        Self::with_ttl(DEFAULT_DISCOVERY_TTL_NANOS)
    }

    /// The cached document when it is younger than the ttl at `now`.
    pub fn lookup(&self, now: u128) -> (r: Option<OidcDiscoveryDocument>)
        ensures
            r == served_document(self.ttl(), self.entry(), now),
    {
        match &self.entry {
            Some((stored, doc)) => {
                let age = if now >= *stored {
                    now - *stored
                } else {
                    0
                };
                if age < self.ttl_nanos {
                    Some(doc.clone())
                } else {
                    None
                }
            },
            None => None,
        }
    }

    /// Records `doc` as fetched at `now`, replacing any earlier entry.
    pub fn store(&mut self, now: u128, doc: OidcDiscoveryDocument)
        ensures
            final(self).ttl() == old(self).ttl(),
            final(self).entry() == Some((now, doc)),
    {
        self.entry = Some((now, doc));
    }

    /// Clears the cache (e.g. after rotation or failed requests).
    pub fn invalidate(&mut self)
        ensures
            final(self).ttl() == old(self).ttl(),
            final(self).entry() is None,
    {
        self.entry = None;
    }
}

/// A stored document is served back unchanged until the ttl has run out
/// since it was stored.
pub proof fn lemma_store_then_lookup(ttl: u128, stored: u128, now: u128, doc: OidcDiscoveryDocument)
    requires
        stored <= now,
        now - stored < ttl,
    ensures
        served_document(ttl, Some((stored, doc)), now) == Some(doc),
{
}

/// Once the ttl has run out the entry is no longer served, so the document
/// is fetched again.
pub proof fn lemma_expired_entry_not_served(
    ttl: u128,
    stored: u128,
    now: u128,
    doc: OidcDiscoveryDocument,
)
    requires
        stored <= now,
        now - stored >= ttl,
    ensures
        served_document(ttl, Some((stored, doc)), now) is None,
{
}

/// After invalidation nothing is served at any time.
pub proof fn lemma_invalidated_serves_nothing(ttl: u128, now: u128)
    ensures
        served_document(ttl, None, now) is None,
{
}

} // verus!
