//! Response unwrapper: extracts the JSON attestation report, the PEM
//! certificate chain and the detached signature from one success response of
//! the attestation authority. The response body's raw text is captured
//! verbatim as the signed payload: the signature covers those exact bytes, so
//! it is carried unmodified through to verification. Missing headers are a
//! typed `EnvelopeError::MissingHeader`, never a panic.

use vstd::prelude::*;

use crate::client::AttestationService;
use crate::codec::b64_decoded;
use crate::codec::base64_decode;
use crate::codec::Quote;
use crate::errors::DecodeError;
use crate::errors::EnvelopeError;

verus! {

/// Name of the response header that carries the percent-encoded PEM bundle of
/// the signing certificate chain, leaf first, issuing CA second.
pub fn signing_cert_header_name() -> (r: &'static str)
    ensures
        r@ == "X-IASReport-Signing-Certificate"@,
{
    "X-IASReport-Signing-Certificate"
}

/// Name of the response header that carries the base64 detached signature
/// over the raw response body.
pub fn signature_header_name() -> (r: &'static str)
    ensures
        r@ == "X-IASReport-Signature"@,
{
    "X-IASReport-Signature"
}

/// What the string member at `key` of the JSON object `body` is: `None` when
/// `body` is not a JSON object or has no such member, `Some(None)` when the
/// member is not a string, `Some(Some(s))` for the string `s`. Relied upon as
/// a function of the two texts alone.
pub uninterp spec fn json_text_field(body: Seq<char>, key: Seq<char>) -> Option<Option<Seq<char>>>;

/// As `json_text_field`, for a non-negative integer member.
pub uninterp spec fn json_count_field(body: Seq<char>, key: Seq<char>) -> Option<Option<u64>>;

/// As `json_text_field`, for a member that is an array of strings;
/// `Some(None)` when the member is not such an array.
pub uninterp spec fn json_text_list_field(body: Seq<char>, key: Seq<char>) -> Option<
    Option<Seq<Seq<char>>>,
>;

/// Relies on serde_json::from_str, Value::get and Value::as_str: looks up the
/// string member at `key` of the JSON object `body`.
#[verifier::external_body]
fn json_get_text(body: &str, key: &str) -> (r: Option<Option<String>>)
    ensures
        match r {
            None => json_text_field(body@, key@) is None,
            Some(None) => json_text_field(body@, key@) == Some(Option::<Seq<char>>::None),
            Some(Some(s)) => json_text_field(body@, key@) == Some(Some(s@)),
        },
{
    let parsed: serde_json::Value = serde_json::from_str(body).ok()?;
    Some(parsed.get(key)?.as_str().map(|s| s.to_string()))
}

/// Relies on serde_json::from_str, Value::get and Value::as_u64: looks up the
/// non-negative integer member at `key` of the JSON object `body`.
#[verifier::external_body]
fn json_get_count(body: &str, key: &str) -> (r: Option<Option<u64>>)
    ensures
        match r {
            None => json_count_field(body@, key@) is None,
            Some(None) => json_count_field(body@, key@) == Some(Option::<u64>::None),
            Some(Some(n)) => json_count_field(body@, key@) == Some(Some(n)),
        },
{
    let parsed: serde_json::Value = serde_json::from_str(body).ok()?;
    Some(parsed.get(key)?.as_u64())
}

/// Relies on serde_json::from_str, Value::get, Value::as_array and
/// Value::as_str: looks up the string-array member at `key` of the JSON
/// object `body`.
#[verifier::external_body]
fn json_get_text_list(body: &str, key: &str) -> (r: Option<Option<Vec<String>>>)
    ensures
        match r {
            None => json_text_list_field(body@, key@) is None,
            Some(None) => json_text_list_field(body@, key@) == Some(
                Option::<Seq<Seq<char>>>::None,
            ),
            Some(Some(v)) => json_text_list_field(body@, key@) == Some(Some(v.deep_view())),
        },
{
    let parsed: serde_json::Value = serde_json::from_str(body).ok()?;
    let member = parsed.get(key)?;
    let arr = match member.as_array() {
        Some(a) => a,
        None => return Some(None),
    };
    let mut out: Vec<String> = Vec::new();
    for x in arr {
        match x.as_str() {
            Some(s) => out.push(s.to_string()),
            None => return Some(None),
        }
    }
    Some(Some(out))
}

/// The body has a string member at `key`.
pub open spec fn has_text(body: Seq<char>, key: Seq<char>) -> bool {
    json_text_field(body, key) matches Some(Some(_))
}

/// The string member at `key`.
pub open spec fn text_at(body: Seq<char>, key: Seq<char>) -> Seq<char>
    recommends
        has_text(body, key),
{
    json_text_field(body, key).unwrap().unwrap()
}

/// The member at `key` may be absent, but is a string when present.
pub open spec fn text_opt_ok(body: Seq<char>, key: Seq<char>) -> bool {
    !(json_text_field(body, key) == Some(Option::<Seq<char>>::None))
}

/// The optional string member at `key`, `None` when absent.
pub open spec fn text_opt(body: Seq<char>, key: Seq<char>) -> Option<Seq<char>> {
    match json_text_field(body, key) {
        Some(Some(s)) => Some(s),
        _ => None,
    }
}

/// The member at `key` may be absent, but is an array of strings when
/// present.
pub open spec fn text_list_opt_ok(body: Seq<char>, key: Seq<char>) -> bool {
    !(json_text_list_field(body, key) == Some(Option::<Seq<Seq<char>>>::None))
}

/// The optional string-array member at `key`, `None` when absent.
pub open spec fn text_list_opt(body: Seq<char>, key: Seq<char>) -> Option<Seq<Seq<char>>> {
    match json_text_list_field(body, key) {
        Some(Some(v)) => Some(v),
        _ => None,
    }
}

/// The authority's attestation report: the mandatory members of its JSON
/// body, plus the optional ones. The quote status is opaque data passed
/// through to the caller; policy on acceptable statuses is a caller decision.
#[derive(Debug)]
pub struct ASReport {
    pub id: String,
    pub timestamp: String,
    pub version: usize,
    pub isv_enclave_quote_status: String,
    pub isv_enclave_quote_body: String,
    pub revocation_reason: Option<String>,
    pub pse_manifest_satus: Option<String>,
    pub pse_manifest_hash: Option<String>,
    pub platform_info_blob: Option<String>,
    pub nonce: Option<String>,
    pub epid_pseudonym: Option<String>,
    pub advisory_ids: Option<Vec<String>>,
    pub advisory_url: Option<String>,
}

impl ASReport {
    /// A report body parses when every mandatory member is present with the
    /// right type, the protocol version fits the machine word, and every
    /// optional member that is present has the right type.
    pub open spec fn spec_parses(body: Seq<char>) -> bool {
        &&& has_text(body, "id"@)
        &&& has_text(body, "timestamp"@)
        &&& (json_count_field(body, "version"@) matches Some(Some(v)) && v <= usize::MAX)
        &&& has_text(body, "isvEnclaveQuoteStatus"@)
        &&& has_text(body, "isvEnclaveQuoteBody"@)
        &&& text_opt_ok(body, "revocationReason"@)
        &&& text_opt_ok(body, "pseManifestStatus"@)
        &&& text_opt_ok(body, "pseManifestHash"@)
        &&& text_opt_ok(body, "platformInfoBlob"@)
        &&& text_opt_ok(body, "nonce"@)
        &&& text_opt_ok(body, "epidPseudonym"@)
        &&& text_list_opt_ok(body, "advisoryIDs"@)
        &&& text_opt_ok(body, "advisoryURL"@)
    }

    /// The report holds exactly the members of `body`.
    pub open spec fn spec_matches(self, body: Seq<char>) -> bool {
        &&& self.id@ == text_at(body, "id"@)
        &&& self.timestamp@ == text_at(body, "timestamp"@)
        &&& json_count_field(body, "version"@) == Some(Some(self.version as u64))
        &&& self.isv_enclave_quote_status@ == text_at(body, "isvEnclaveQuoteStatus"@)
        &&& self.isv_enclave_quote_body@ == text_at(body, "isvEnclaveQuoteBody"@)
        &&& self.revocation_reason.deep_view() == text_opt(body, "revocationReason"@)
        &&& self.pse_manifest_satus.deep_view() == text_opt(body, "pseManifestStatus"@)
        &&& self.pse_manifest_hash.deep_view() == text_opt(body, "pseManifestHash"@)
        &&& self.platform_info_blob.deep_view() == text_opt(body, "platformInfoBlob"@)
        &&& self.nonce.deep_view() == text_opt(body, "nonce"@)
        &&& self.epid_pseudonym.deep_view() == text_opt(body, "epidPseudonym"@)
        &&& self.advisory_ids.deep_view() == text_list_opt(body, "advisoryIDs"@)
        &&& self.advisory_url.deep_view() == text_opt(body, "advisoryURL"@)
    }

    /// Parses the authority's JSON report body. Fails with
    /// `EnvelopeError::MalformedReport` exactly when a mandatory member is
    /// missing or mistyped, the version overflows the machine word, or a
    /// present optional member is mistyped.
    pub fn from_json(body: &str) -> (r: Result<ASReport, EnvelopeError>)
        ensures
            r matches Ok(rep) ==> Self::spec_parses(body@) && rep.spec_matches(body@),
            r is Err ==> !Self::spec_parses(body@) && r == Err::<ASReport, EnvelopeError>(
                EnvelopeError::MalformedReport,
            ),
            Self::spec_parses(body@) ==> r is Ok,
    {
        let id = match json_get_text(body, "id") {
            Some(Some(s)) => s,
            _ => {
                return Err(EnvelopeError::MalformedReport);
            },
        };
        let timestamp = match json_get_text(body, "timestamp") {
            Some(Some(s)) => s,
            _ => {
                return Err(EnvelopeError::MalformedReport);
            },
        };
        let version_count = match json_get_count(body, "version") {
            Some(Some(n)) => n,
            _ => {
                return Err(EnvelopeError::MalformedReport);
            },
        };
        if version_count > (usize::MAX as u64) {
            return Err(EnvelopeError::MalformedReport);
        }
        let version = version_count as usize;
        let isv_enclave_quote_status = match json_get_text(body, "isvEnclaveQuoteStatus") {
            Some(Some(s)) => s,
            _ => {
                return Err(EnvelopeError::MalformedReport);
            },
        };
        let isv_enclave_quote_body = match json_get_text(body, "isvEnclaveQuoteBody") {
            Some(Some(s)) => s,
            _ => {
                return Err(EnvelopeError::MalformedReport);
            },
        };
        let revocation_reason = match json_get_text(body, "revocationReason") {
            None => None,
            Some(Some(s)) => Some(s),
            Some(None) => {
                return Err(EnvelopeError::MalformedReport);
            },
        };
        let pse_manifest_satus = match json_get_text(body, "pseManifestStatus") {
            None => None,
            Some(Some(s)) => Some(s),
            Some(None) => {
                return Err(EnvelopeError::MalformedReport);
            },
        };
        let pse_manifest_hash = match json_get_text(body, "pseManifestHash") {
            None => None,
            Some(Some(s)) => Some(s),
            Some(None) => {
                return Err(EnvelopeError::MalformedReport);
            },
        };
        let platform_info_blob = match json_get_text(body, "platformInfoBlob") {
            None => None,
            Some(Some(s)) => Some(s),
            Some(None) => {
                return Err(EnvelopeError::MalformedReport);
            },
        };
        let nonce = match json_get_text(body, "nonce") {
            None => None,
            Some(Some(s)) => Some(s),
            Some(None) => {
                return Err(EnvelopeError::MalformedReport);
            },
        };
        let epid_pseudonym = match json_get_text(body, "epidPseudonym") {
            None => None,
            Some(Some(s)) => Some(s),
            Some(None) => {
                return Err(EnvelopeError::MalformedReport);
            },
        };
        let advisory_ids = match json_get_text_list(body, "advisoryIDs") {
            None => None,
            Some(Some(v)) => Some(v),
            Some(None) => {
                return Err(EnvelopeError::MalformedReport);
            },
        };
        let advisory_url = match json_get_text(body, "advisoryURL") {
            None => None,
            Some(Some(s)) => Some(s),
            Some(None) => {
                return Err(EnvelopeError::MalformedReport);
            },
        };
        Ok(
            ASReport {
                id,
                timestamp,
                version,
                isv_enclave_quote_status,
                isv_enclave_quote_body,
                revocation_reason,
                pse_manifest_satus,
                pse_manifest_hash,
                platform_info_blob,
                nonce,
                epid_pseudonym,
                advisory_ids,
                advisory_url,
            },
        )
    }
}

impl Default for ASReport {
    /// An empty report: empty mandatory texts, zero version, every optional
    /// member absent.
    fn default() -> (r: ASReport)
        ensures
            r.id@.len() == 0,
            r.timestamp@.len() == 0,
            r.version == 0,
            r.isv_enclave_quote_status@.len() == 0,
            r.isv_enclave_quote_body@.len() == 0,
            r.revocation_reason is None,
            r.pse_manifest_satus is None,
            r.pse_manifest_hash is None,
            r.platform_info_blob is None,
            r.nonce is None,
            r.epid_pseudonym is None,
            r.advisory_ids is None,
            r.advisory_url is None,
    {
        ASReport {
            id: String::new(),
            timestamp: String::new(),
            version: 0,
            isv_enclave_quote_status: String::new(),
            isv_enclave_quote_body: String::new(),
            revocation_reason: None,
            pse_manifest_satus: None,
            pse_manifest_hash: None,
            platform_info_blob: None,
            nonce: None,
            epid_pseudonym: None,
            advisory_ids: None,
            advisory_url: None,
        }
    }
}

/// What percent-decoding yields for a given text: `None` exactly when the
/// decoded bytes are not UTF-8. Relied upon as a function of the text alone.
pub uninterp spec fn pct_decoded(s: Seq<char>) -> Option<Seq<char>>;

/// Relies on percent_encoding::percent_decode_str and decode_utf8:
/// percent-decoding of the text.
#[verifier::external_body]
fn percent_decode(s: &str) -> (r: Option<String>)
    ensures
        match r {
            Some(t) => pct_decoded(s@) == Some(t@),
            None => pct_decoded(s@) is None,
        },
{
    percent_encoding::percent_decode_str(s).decode_utf8().ok().map(|c| c.into_owned())
}

/// What the certificates of a PEM bundle are, each re-encoded alone as PEM
/// text, in bundle order; `None` when the bundle does not parse. Relied upon
/// as a function of the text alone.
pub uninterp spec fn pem_certs(pem: Seq<char>) -> Option<Seq<Seq<char>>>;

/// Relies on openssl's X509::stack_from_pem and X509::to_pem: the
/// certificates of a PEM bundle, re-encoded one by one.
#[verifier::external_body]
fn pem_stack_to_strings(pem: &str) -> (r: Option<Vec<String>>)
    ensures
        match r {
            Some(v) => pem_certs(pem@) == Some(v.deep_view()),
            None => pem_certs(pem@) is None,
        },
{
    let certs = openssl::x509::X509::stack_from_pem(pem.as_bytes()).ok()?;
    let mut out: Vec<String> = Vec::new();
    for c in certs {
        out.push(String::from_utf8(c.to_pem().ok()?).ok()?);
    }
    Some(out)
}

/// The signing-certificate header text decodes to a PEM bundle of at least
/// two certificates.
pub open spec fn spec_chain_ok(header: Seq<char>) -> bool {
    &&& pct_decoded(header) is Some
    &&& pem_certs(pct_decoded(header).unwrap()) matches Some(certs) && certs.len() >= 2
}

/// The leaf signing certificate: first in the bundle.
pub open spec fn spec_chain_leaf(header: Seq<char>) -> Seq<char>
    recommends
        spec_chain_ok(header),
{
    pem_certs(pct_decoded(header).unwrap()).unwrap()[0]
}

/// The issuing CA certificate: second in the bundle.
pub open spec fn spec_chain_ca(header: Seq<char>) -> Seq<char>
    recommends
        spec_chain_ok(header),
{
    pem_certs(pct_decoded(header).unwrap()).unwrap()[1]
}

/// Which envelope error the unwrapping of a success response yields, `None`
/// when the envelope is sound: both headers present, certificate chain and
/// signature well formed, report body complete.
pub open spec fn spec_envelope_error(
    cert_header: Option<Seq<char>>,
    sig_header: Option<Seq<char>>,
    body: Seq<char>,
) -> Option<EnvelopeError> {
    if cert_header is None || sig_header is None {
        Some(EnvelopeError::MissingHeader)
    } else if !spec_chain_ok(cert_header.unwrap()) {
        Some(EnvelopeError::MalformedCertificateChain)
    } else if b64_decoded(sig_header.unwrap()) is None {
        Some(EnvelopeError::MalformedSignature)
    } else if !ASReport::spec_parses(body) {
        Some(EnvelopeError::MalformedReport)
    } else {
        None
    }
}

/// The verification material extracted from one success response, retained
/// for audit alongside the verification outcome. `report_string` is the raw
/// response body verbatim: the signed payload. `validate` is set only by the
/// caller, from the outcome of `verify_report`, never pre-set.
#[derive(Debug)]
pub struct ASResult {
    pub ca: String,
    pub certificate: String,
    pub report: ASReport,
    pub report_string: String,
    pub signature: Vec<u8>,
    pub validate: bool,
}

impl ASResult {
    /// The material is exactly what the envelope parts carry: the
    /// certificates of the bundle in the certificate header, leaf first and
    /// issuing CA second; the base64-decoded signature header; the raw body
    /// verbatim as the signed payload, and its parsed report; a verification
    /// flag not yet set.
    pub open spec fn spec_from_envelope(
        self,
        cert_header: Seq<char>,
        sig_header: Seq<char>,
        body: Seq<char>,
    ) -> bool {
        &&& self.certificate@ == spec_chain_leaf(cert_header)
        &&& self.ca@ == spec_chain_ca(cert_header)
        &&& b64_decoded(sig_header) == Some(self.signature@)
        &&& self.report_string@ == body
        &&& self.report.spec_matches(body)
        &&& self.validate == false
    }
}

/// The response envelope handed back to callers; the JSON-RPC id and version
/// are fixed protocol fillers.
#[derive(Debug)]
pub struct ASResponse {
    pub id: i64,
    pub jsonrpc: String,
    pub result: ASResult,
}

impl ASResponse {
    /// Decodes the quote embedded in the report, for identity comparison by
    /// the caller after a successful verification.
    pub fn get_quote(&self) -> (r: Result<Quote, DecodeError>)
        ensures
            b64_decoded(self.result.report.isv_enclave_quote_body@) is None ==> r == Err::<
                Quote,
                DecodeError,
            >(DecodeError::Encoding),
            b64_decoded(self.result.report.isv_enclave_quote_body@) matches Some(b) ==> {
                &&& b.len() == crate::codec::QUOTE_BYTES ==> (r matches Ok(q) && q.wf()
                    && q.encoded() == b)
                &&& b.len() < crate::codec::QUOTE_BYTES ==> r == Err::<Quote, DecodeError>(
                    DecodeError::Length,
                )
                &&& b.len() > crate::codec::QUOTE_BYTES ==> r == Err::<Quote, DecodeError>(
                    DecodeError::TrailingData,
                )
            },
    {
        Quote::from_base64(self.result.report.isv_enclave_quote_body.as_str())
    }
}

impl AttestationService {
    /// Extracts the verification material from one success response of the
    /// authority: the two security headers, when present, and the raw body,
    /// captured verbatim as the signed payload before any parsing.
    pub fn unwrap_result(
        &self,
        cert_header: Option<&str>,
        sig_header: Option<&str>,
        body: &str,
    ) -> (r: Result<ASResult, EnvelopeError>)
        ensures
            r matches Err(e) ==> spec_envelope_error(
                cert_header.deep_view(),
                sig_header.deep_view(),
                body@,
            ) == Some(e),
            r matches Ok(res) ==> {
                &&& spec_envelope_error(cert_header.deep_view(), sig_header.deep_view(), body@)
                    is None
                &&& cert_header matches Some(ch) && sig_header matches Some(sh)
                    && res.spec_from_envelope(ch@, sh@, body@)
            },
    {
        let cert_h = match cert_header {
            Some(h) => h,
            None => {
                return Err(EnvelopeError::MissingHeader);
            },
        };
        let sig_h = match sig_header {
            Some(h) => h,
            None => {
                return Err(EnvelopeError::MissingHeader);
            },
        };
        let decoded = match percent_decode(cert_h) {
            Some(d) => d,
            None => {
                return Err(EnvelopeError::MalformedCertificateChain);
            },
        };
        let certs = match pem_stack_to_strings(decoded.as_str()) {
            Some(c) => c,
            None => {
                return Err(EnvelopeError::MalformedCertificateChain);
            },
        };
        if certs.len() < 2 {
            return Err(EnvelopeError::MalformedCertificateChain);
        }
        let signature = match base64_decode(sig_h) {
            Some(b) => b,
            None => {
                return Err(EnvelopeError::MalformedSignature);
            },
        };
        let report = match ASReport::from_json(body) {
            Ok(rep) => rep,
            Err(e) => {
                return Err(e);
            },
        };
        let certificate = certs[0].clone();
        let ca = certs[1].clone();
        Ok(
            ASResult {
                ca,
                certificate,
                report,
                report_string: body.to_owned(),
                signature,
                validate: false,
            },
        )
    }

    /// Wraps the verification material in the response envelope the callers
    /// consume.
    pub fn unwrap_response(
        &self,
        cert_header: Option<&str>,
        sig_header: Option<&str>,
        body: &str,
    ) -> (r: Result<ASResponse, EnvelopeError>)
        ensures
            r matches Err(e) ==> spec_envelope_error(
                cert_header.deep_view(),
                sig_header.deep_view(),
                body@,
            ) == Some(e),
            r matches Ok(resp) ==> {
                &&& spec_envelope_error(cert_header.deep_view(), sig_header.deep_view(), body@)
                    is None
                &&& resp.id == 12345
                &&& resp.jsonrpc@ == "2.0"@
                &&& cert_header matches Some(ch) && sig_header matches Some(sh)
                    && resp.result.spec_from_envelope(ch@, sh@, body@)
            },
    {
        let result = match self.unwrap_result(cert_header, sig_header, body) {
            Ok(res) => res,
            Err(e) => {
                return Err(e);
            },
        };
        let id: i64 = 12345;
        let jsonrpc = "2.0".to_owned();
        Ok(ASResponse { id, jsonrpc, result })
    }
}

} // verus!
