use vstd::prelude::*;

verus! {

/// Failure of inscription-identifier resolution: the identifier is absent
/// from the backing store, the remote lookup could not be reached, or the
/// remote answer did not have the expected shape.
#[derive(Clone, Copy, Debug, PartialEq, Eq, Structural)]
pub enum ResolveError {
    NotFound,
    TransportError,
    MalformedResponse,
}

/// Failure of transaction assembly: a resolution error propagated from the
/// resolver, a destination or change address that does not parse or does not
/// belong to the configured network, or a transfer that supplies neither an
/// inscription identifier nor an explicit coin reference.
#[derive(Clone, Copy, Debug, PartialEq, Eq, Structural)]
pub enum AssembleError {
    Resolution(ResolveError),
    InvalidAddress,
    MissingReference,
}

/// A configuration the system refuses to work with: a signing scheme whose
/// placeholder witness shape has not been modeled.
#[derive(Clone, Copy, Debug, PartialEq, Eq, Structural)]
pub enum ConfigError {
    UnsupportedScheme,
}

/// Failure of fee estimation: an assembly error, an unsupported signing
/// configuration, or a rate so large that the fee product leaves `u64`.
#[derive(Clone, Copy, Debug, PartialEq, Eq, Structural)]
pub enum FeeError {
    Assemble(AssembleError),
    Config(ConfigError),
    FeeOverflow,
}

/// Failure while attaching previous outputs to a signable package: a
/// referenced output index that the fetched previous transaction does not
/// have.
#[derive(Clone, Copy, Debug, PartialEq, Eq, Structural)]
pub enum EnrichError {
    MissingPrevOutput,
}

} // verus!
