//! Report verifier: establishes the chain of trust over the verification
//! material. Step one confirms that the CA certificate is the issuer of the
//! leaf signing certificate; step two verifies the detached RSA SHA-256
//! signature over the exact raw report text under the leaf's public key. The
//! outcome is `true` only when both steps succeed; an untrusted chain is the
//! expected outcome `false`, not an error, while material whose trust cannot
//! even be evaluated fails with `VerifyError`.

use vstd::prelude::*;

use crate::envelope::ASResult;
use crate::errors::VerifyError;

verus! {

/// What the issuer check yields for two certificate texts: `None` when either
/// text does not parse as one PEM certificate, otherwise whether the first
/// certificate is the issuer of the second. Relied upon as a function of the
/// two texts alone.
pub uninterp spec fn chain_check(ca_pem: Seq<char>, leaf_pem: Seq<char>) -> Option<bool>;

/// Relies on openssl's X509::from_pem and X509::issued: whether the first
/// certificate is the issuer of the second.
#[verifier::external_body]
fn x509_issuer_check(ca_pem: &str, leaf_pem: &str) -> (r: Option<bool>)
    ensures
        r == chain_check(ca_pem@, leaf_pem@),
{
    let ca = openssl::x509::X509::from_pem(ca_pem.as_bytes()).ok()?;
    let leaf = openssl::x509::X509::from_pem(leaf_pem.as_bytes()).ok()?;
    Some(ca.issued(&leaf) == openssl::x509::X509VerifyResult::OK)
}

/// What the signature check yields for a certificate text, a message text and
/// signature bytes: `None` when the certificate does not parse or its public
/// key cannot drive an RSA SHA-256 verifier, otherwise whether `signature` is
/// a valid signature over the UTF-8 bytes of `message` under that key. Relied
/// upon as a function of the arguments alone.
pub uninterp spec fn sig_check(leaf_pem: Seq<char>, message: Seq<char>, signature: Seq<u8>) -> Option<
    bool,
>;

/// Relies on openssl's X509::from_pem, X509::public_key and sign::Verifier
/// with a SHA-256 digest: verifies the detached signature over the message
/// bytes.
#[verifier::external_body]
fn rsa_sha256_verify(leaf_pem: &str, message: &str, signature: &Vec<u8>) -> (r: Option<bool>)
    ensures
        r == sig_check(leaf_pem@, message@, signature@),
{
    let leaf = openssl::x509::X509::from_pem(leaf_pem.as_bytes()).ok()?;
    let key = leaf.public_key().ok()?;
    let digest = openssl::hash::MessageDigest::sha256();
    let mut verifier = openssl::sign::Verifier::new(digest, &key).ok()?;
    verifier.update(message.as_bytes()).ok()?;
    verifier.verify(signature).ok()
}

/// The outcome of verifying one set of material: an unparseable certificate
/// is `VerifyError::MalformedCertificate`; an untrusted chain is the result
/// `false` with the signature never consulted; an unevaluable signature is
/// `VerifyError::MalformedSignature`; otherwise the result is the signature
/// check's.
pub open spec fn spec_verify_outcome(
    ca: Seq<char>,
    certificate: Seq<char>,
    message: Seq<char>,
    signature: Seq<u8>,
) -> Result<bool, VerifyError> {
    match chain_check(ca, certificate) {
        None => Err(VerifyError::MalformedCertificate),
        Some(false) => Ok(false),
        Some(true) => match sig_check(certificate, message, signature) {
            None => Err(VerifyError::MalformedSignature),
            Some(b) => Ok(b),
        },
    }
}

impl ASResult {
    /// Verifies the report and the chain of trust: the CA must have issued
    /// the signing certificate, and the detached signature must verify over
    /// the raw report text. Pure in its inputs: the same material always
    /// yields the same outcome.
    pub fn verify_report(&self) -> (r: Result<bool, VerifyError>)
        ensures
            r == spec_verify_outcome(
                self.ca@,
                self.certificate@,
                self.report_string@,
                self.signature@,
            ),
    {
        let issued = match x509_issuer_check(self.ca.as_str(), self.certificate.as_str()) {
            Some(b) => b,
            None => {
                return Err(VerifyError::MalformedCertificate);
            },
        };
        if !issued {
            return Ok(false);
        }
        match rsa_sha256_verify(self.certificate.as_str(), self.report_string.as_str(), &self.signature) {
            Some(b) => Ok(b),
            None => Err(VerifyError::MalformedSignature),
        }
    }
}

/// An untrusted chain decides alone: when the CA did not issue the leaf, the
/// outcome is `false` — not an error — whatever the signature check would
/// have said of any signature.
pub proof fn lemma_untrusted_chain_is_false(
    ca: Seq<char>,
    certificate: Seq<char>,
    message: Seq<char>,
    signature: Seq<u8>,
)
    requires
        chain_check(ca, certificate) == Some(false),
    ensures
        spec_verify_outcome(ca, certificate, message, signature) == Ok::<bool, VerifyError>(false),
{
}

/// Verification yields `true` exactly when both the issuer check and the
/// SHA-256/RSA signature check succeed over the same material.
pub proof fn lemma_verified_needs_both(
    ca: Seq<char>,
    certificate: Seq<char>,
    message: Seq<char>,
    signature: Seq<u8>,
)
    ensures
        spec_verify_outcome(ca, certificate, message, signature) == Ok::<bool, VerifyError>(true)
            <==> (chain_check(ca, certificate) == Some(true) && sig_check(
            certificate,
            message,
            signature,
        ) == Some(true)),
{
}

} // verus!
