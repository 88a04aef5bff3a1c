//! Error taxonomy of the attestation pipeline. Every failure is surfaced as a
//! typed result so that a caller can distinguish "could not verify" from
//! "verified false".

use vstd::prelude::*;

verus! {

/// A malformed binary quote input: always a caller-input fault, never retried.
#[derive(Clone, Copy, Debug, PartialEq, Eq, Structural)]
pub enum DecodeError {
    /// The input is not valid base64.
    Encoding,
    /// Fewer than the 432 bytes of the two quote records were available.
    Length,
    /// Bytes remain after both quote records were filled.
    TrailingData,
}

/// A network-level failure of one attempt against the attestation authority.
#[derive(Clone, Copy, Debug, PartialEq, Eq, Structural)]
pub enum ClientError {
    /// The transport could not complete the request at all.
    Transport,
    /// The authority answered with a non-success HTTP status.
    HttpStatus(u16),
}

/// A success response from the authority that cannot be safely interpreted.
/// Structural, not transient: never retried.
#[derive(Clone, Copy, Debug, PartialEq, Eq, Structural)]
pub enum EnvelopeError {
    /// A required response header is absent.
    MissingHeader,
    /// The signing-certificate header does not decode to at least two
    /// PEM certificates.
    MalformedCertificateChain,
    /// The signature header is not valid base64.
    MalformedSignature,
    /// The response body is not a report with all mandatory fields.
    MalformedReport,
}

/// Trust could not even be evaluated, as opposed to a verification returning
/// `false`, which means "well-formed but untrusted".
#[derive(Clone, Copy, Debug, PartialEq, Eq, Structural)]
pub enum VerifyError {
    /// A certificate did not parse as PEM.
    MalformedCertificate,
    /// The signature bytes could not be evaluated against the leaf key.
    MalformedSignature,
}

} // verus!
