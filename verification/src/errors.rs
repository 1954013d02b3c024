use vstd::prelude::*;

verus! {

/// Failure taxonomy of the balance-resolution pipeline.
///
/// `ConfigurationError` and `CacheUnavailable` arise only at construction
/// time, in the embedding program; the remaining variants are produced by
/// the resolver itself.
#[derive(Clone, Copy, Debug, PartialEq, Eq, Structural)]
pub enum ResolveError {
    /// The required upstream API key was missing at startup; fatal, no
    /// resolver is constructed.
    ConfigurationError,
    /// The cache connection could not be established at construction; the
    /// resolver proceeds cache-less.
    CacheUnavailable,
    /// A configured cache failed on a specific read or write call.
    CacheOperationError,
    /// The upstream node answered with a non-success HTTP status.
    UpstreamHttpError { status: u16 },
    /// The upstream node could not be reached at the transport level.
    UpstreamUnreachable,
    /// The upstream result string does not start with the `"0x"` prefix.
    MalformedResponse,
    /// The hex payload after the prefix is not parseable as a bounded
    /// non-negative integer.
    NumericDecodeError,
}

impl ResolveError {
    /// A fixed human-readable message for each error kind.
    pub fn message(&self) -> (r: String)
        ensures
            self is ConfigurationError ==> r@ == "couldn't get API key from environment"@,
            self is CacheUnavailable ==> r@ == "failed to connect to the cache"@,
            self is CacheOperationError ==> r@ == "cache read/write failed"@,
            self is UpstreamHttpError ==> r@ == "request failed with a non-success status code"@,
            self is UpstreamUnreachable ==> r@ == "couldn't reach the upstream node"@,
            self is MalformedResponse ==> r@ == "string is not in hex format (prefixed with 0x)"@,
            self is NumericDecodeError ==> r@ == "couldn't parse the wei hex value into an integer"@,
    {
        match self {
            ResolveError::ConfigurationError => String::from_str(
                "couldn't get API key from environment",
            ),
            ResolveError::CacheUnavailable => String::from_str("failed to connect to the cache"),
            ResolveError::CacheOperationError => String::from_str("cache read/write failed"),
            ResolveError::UpstreamHttpError { status: _ } => String::from_str(
                "request failed with a non-success status code",
            ),
            ResolveError::UpstreamUnreachable => String::from_str(
                "couldn't reach the upstream node",
            ),
            ResolveError::MalformedResponse => String::from_str(
                "string is not in hex format (prefixed with 0x)",
            ),
            ResolveError::NumericDecodeError => String::from_str(
                "couldn't parse the wei hex value into an integer",
            ),
        }
    }
}

} // verus!
