//! Quote codec: exact, positional binary decoding of the hardware quote
//! structure. A quote is two fixed-size records, 48 + 384 = 432 bytes; field
//! assignment is purely positional and part of the wire contract with the
//! attestation authority. Decoding is strict: shorter input fails with
//! `DecodeError::Length`, longer input with `DecodeError::TrailingData`, and a
//! decoded quote re-encodes, record after record, to exactly the bytes it was
//! decoded from.

use vstd::prelude::*;

use crate::errors::DecodeError;

verus! {

/// Size in bytes of the quote body record.
pub const QUOTE_BODY_BYTES: usize = 48;

/// Size in bytes of the quote report-body record.
pub const QUOTE_REPORT_BODY_BYTES: usize = 384;

/// Total size in bytes of a decoded quote: both records, nothing else.
pub const QUOTE_BYTES: usize = 432;

/// Copies `len` bytes of `bytes` starting at `start`.
fn copy_range(bytes: &Vec<u8>, start: usize, len: usize) -> (r: Vec<u8>)
    requires
        start + len <= bytes@.len(),
    ensures
        r@ == bytes@.subrange(start as int, start as int + len as int),
{
    let n: usize = bytes.len();
    let mut r: Vec<u8> = Vec::new();
    let mut i: usize = 0;
    while i < len
        invariant
            start + len <= n,
            n == bytes@.len(),
            i <= len,
            r@ == bytes@.subrange(start as int, start as int + i as int),
        decreases len - i,
    {
        r.push(bytes[start + i]);
        i = i + 1;
        proof {
            assert(r@ =~= bytes@.subrange(start as int, start as int + i as int));
        }
    }
    r
}

/// Appends every byte of `src` to `dst`.
fn push_all(dst: &mut Vec<u8>, src: &Vec<u8>)
    ensures
        final(dst)@ == old(dst)@ + src@,
{
    let mut i: usize = 0;
    while i < src.len()
        invariant
            i <= src@.len(),
            dst@ == old(dst)@ + src@.subrange(0, i as int),
        decreases src@.len() - i,
    {
        dst.push(src[i]);
        i = i + 1;
        proof {
            assert(dst@ =~= old(dst)@ + src@.subrange(0, i as int));
        }
    }
    proof {
        assert(dst@ =~= old(dst)@ + src@);
    }
}

/// A vector of `len` zero bytes.
fn zero_vec(len: usize) -> (r: Vec<u8>)
    ensures
        r@ == Seq::new(len as nat, |i: int| 0u8),
{
    let mut r: Vec<u8> = Vec::new();
    let mut i: usize = 0;
    while i < len
        invariant
            i <= len,
            r@ == Seq::new(i as nat, |j: int| 0u8),
        decreases len - i,
    {
        r.push(0u8);
        i = i + 1;
        proof {
            assert(r@ =~= Seq::new(i as nat, |j: int| 0u8));
        }
    }
    r
}

/// First record of a quote: 48 bytes, fields in wire order.
#[derive(Debug, PartialEq, Eq)]
pub struct QBody {
    pub version: Vec<u8>,
    pub signature_type: Vec<u8>,
    pub gid: Vec<u8>,
    pub isv_svn_qe: Vec<u8>,
    pub isv_svn_pce: Vec<u8>,
    pub reserved: Vec<u8>,
    pub base_name: Vec<u8>,
}

impl QBody {
    /// Every field holds exactly its declared byte width.
    pub open spec fn wf(&self) -> bool {
        &&& self.version@.len() == 2
        &&& self.signature_type@.len() == 2
        &&& self.gid@.len() == 4
        &&& self.isv_svn_qe@.len() == 2
        &&& self.isv_svn_pce@.len() == 2
        &&& self.reserved@.len() == 4
        &&& self.base_name@.len() == 32
    }

    /// The wire form of the record: its fields back-to-back, in wire order.
    pub open spec fn encoded(&self) -> Seq<u8> {
        self.version@ + self.signature_type@ + self.gid@ + self.isv_svn_qe@
            + self.isv_svn_pce@ + self.reserved@ + self.base_name@
    }

    /// Decodes the record from exactly `QUOTE_BODY_BYTES` bytes, field by
    /// field in wire order. The result re-encodes to the input.
    pub fn from_bytes_read(bytes: &Vec<u8>) -> (r: Result<QBody, DecodeError>)
        ensures
            bytes@.len() == QUOTE_BODY_BYTES ==> (r matches Ok(q) && q.wf() && q.encoded()
                == bytes@),
            bytes@.len() < QUOTE_BODY_BYTES ==> r == Err::<QBody, DecodeError>(
                DecodeError::Length,
            ),
            bytes@.len() > QUOTE_BODY_BYTES ==> r == Err::<QBody, DecodeError>(
                DecodeError::TrailingData,
            ),
    {
        if bytes.len() < QUOTE_BODY_BYTES {
            return Err(DecodeError::Length);
        }
        if bytes.len() > QUOTE_BODY_BYTES {
            return Err(DecodeError::TrailingData);
        }
        let q = QBody {
            version: copy_range(bytes, 0, 2),
            signature_type: copy_range(bytes, 2, 2),
            gid: copy_range(bytes, 4, 4),
            isv_svn_qe: copy_range(bytes, 8, 2),
            isv_svn_pce: copy_range(bytes, 10, 2),
            reserved: copy_range(bytes, 12, 4),
            base_name: copy_range(bytes, 16, 32),
        };
        proof {
            assert(q.encoded() =~= bytes@);
        }
        Ok(q)
    }

    /// Re-encodes the record to its wire form.
    pub fn to_bytes(&self) -> (r: Vec<u8>)
        ensures
            r@ == self.encoded(),
    {
        let mut r: Vec<u8> = Vec::new();
        push_all(&mut r, &self.version);
        push_all(&mut r, &self.signature_type);
        push_all(&mut r, &self.gid);
        push_all(&mut r, &self.isv_svn_qe);
        push_all(&mut r, &self.isv_svn_pce);
        push_all(&mut r, &self.reserved);
        push_all(&mut r, &self.base_name);
        r
    }
}

impl Default for QBody {
    /// A zero-filled record of the right field widths.
    fn default() -> (r: QBody)
        ensures
            r.wf(),
            r.encoded() == Seq::new(QUOTE_BODY_BYTES as nat, |i: int| 0u8),
    {
        let r = QBody {
            version: zero_vec(2),
            signature_type: zero_vec(2),
            gid: zero_vec(4),
            isv_svn_qe: zero_vec(2),
            isv_svn_pce: zero_vec(2),
            reserved: zero_vec(4),
            base_name: zero_vec(32),
        };
        proof {
            assert(r.encoded() =~= Seq::new(QUOTE_BODY_BYTES as nat, |i: int| 0u8));
        }
        r
    }
}

/// Second record of a quote: 384 bytes, fields in wire order. The first 20
/// bytes of `report_data` carry the identity value that callers compare
/// against an externally obtained signing address.
#[derive(Debug, PartialEq, Eq)]
pub struct QReportBody {
    pub cpu_svn: Vec<u8>,
    pub misc_select: Vec<u8>,
    pub reserved: Vec<u8>,
    pub attributes: Vec<u8>,
    pub mr_enclave: Vec<u8>,
    pub reserved2: Vec<u8>,
    pub mr_signer: Vec<u8>,
    pub reserved3: Vec<u8>,
    pub isv_prod_id: Vec<u8>,
    pub isv_svn: Vec<u8>,
    pub reserved4: Vec<u8>,
    pub report_data: Vec<u8>,
}

impl QReportBody {
    /// Every field holds exactly its declared byte width.
    pub open spec fn wf(&self) -> bool {
        &&& self.cpu_svn@.len() == 16
        &&& self.misc_select@.len() == 4
        &&& self.reserved@.len() == 28
        &&& self.attributes@.len() == 16
        &&& self.mr_enclave@.len() == 32
        &&& self.reserved2@.len() == 32
        &&& self.mr_signer@.len() == 32
        &&& self.reserved3@.len() == 96
        &&& self.isv_prod_id@.len() == 2
        &&& self.isv_svn@.len() == 2
        &&& self.reserved4@.len() == 60
        &&& self.report_data@.len() == 64
    }

    /// The wire form of the record: its fields back-to-back, in wire order.
    pub open spec fn encoded(&self) -> Seq<u8> {
        self.cpu_svn@ + self.misc_select@ + self.reserved@ + self.attributes@ + self.mr_enclave@
            + self.reserved2@ + self.mr_signer@ + self.reserved3@ + self.isv_prod_id@
            + self.isv_svn@ + self.reserved4@ + self.report_data@
    }

    /// Decodes the record from exactly `QUOTE_REPORT_BODY_BYTES` bytes, field
    /// by field in wire order. The result re-encodes to the input.
    pub fn from_bytes_read(bytes: &Vec<u8>) -> (r: Result<QReportBody, DecodeError>)
        ensures
            bytes@.len() == QUOTE_REPORT_BODY_BYTES ==> (r matches Ok(q) && q.wf() && q.encoded()
                == bytes@),
            bytes@.len() < QUOTE_REPORT_BODY_BYTES ==> r == Err::<QReportBody, DecodeError>(
                DecodeError::Length,
            ),
            bytes@.len() > QUOTE_REPORT_BODY_BYTES ==> r == Err::<QReportBody, DecodeError>(
                DecodeError::TrailingData,
            ),
    {
        if bytes.len() < QUOTE_REPORT_BODY_BYTES {
            return Err(DecodeError::Length);
        }
        if bytes.len() > QUOTE_REPORT_BODY_BYTES {
            return Err(DecodeError::TrailingData);
        }
        let q = QReportBody {
            cpu_svn: copy_range(bytes, 0, 16),
            misc_select: copy_range(bytes, 16, 4),
            reserved: copy_range(bytes, 20, 28),
            attributes: copy_range(bytes, 48, 16),
            mr_enclave: copy_range(bytes, 64, 32),
            reserved2: copy_range(bytes, 96, 32),
            mr_signer: copy_range(bytes, 128, 32),
            reserved3: copy_range(bytes, 160, 96),
            isv_prod_id: copy_range(bytes, 256, 2),
            isv_svn: copy_range(bytes, 258, 2),
            reserved4: copy_range(bytes, 260, 60),
            report_data: copy_range(bytes, 320, 64),
        };
        proof {
            assert(q.encoded() =~= bytes@);
        }
        Ok(q)
    }

    /// Re-encodes the record to its wire form.
    pub fn to_bytes(&self) -> (r: Vec<u8>)
        ensures
            r@ == self.encoded(),
    {
        let mut r: Vec<u8> = Vec::new();
        push_all(&mut r, &self.cpu_svn);
        push_all(&mut r, &self.misc_select);
        push_all(&mut r, &self.reserved);
        push_all(&mut r, &self.attributes);
        push_all(&mut r, &self.mr_enclave);
        push_all(&mut r, &self.reserved2);
        push_all(&mut r, &self.mr_signer);
        push_all(&mut r, &self.reserved3);
        push_all(&mut r, &self.isv_prod_id);
        push_all(&mut r, &self.isv_svn);
        push_all(&mut r, &self.reserved4);
        push_all(&mut r, &self.report_data);
        r
    }
}

impl Default for QReportBody {
    /// A zero-filled record of the right field widths.
    fn default() -> (r: QReportBody)
        ensures
            r.wf(),
            r.encoded() == Seq::new(QUOTE_REPORT_BODY_BYTES as nat, |i: int| 0u8),
    {
        let r = QReportBody {
            cpu_svn: zero_vec(16),
            misc_select: zero_vec(4),
            reserved: zero_vec(28),
            attributes: zero_vec(16),
            mr_enclave: zero_vec(32),
            reserved2: zero_vec(32),
            mr_signer: zero_vec(32),
            reserved3: zero_vec(96),
            isv_prod_id: zero_vec(2),
            isv_svn: zero_vec(2),
            reserved4: zero_vec(60),
            report_data: zero_vec(64),
        };
        proof {
            assert(r.encoded() =~= Seq::new(QUOTE_REPORT_BODY_BYTES as nat, |i: int| 0u8));
        }
        r
    }
}

/// A decoded quote: both fixed-size records and nothing else.
#[derive(Debug, PartialEq, Eq)]
pub struct Quote {
    pub body: QBody,
    pub report_body: QReportBody,
}

/// What base64 decoding yields for a given text, `None` exactly on text that
/// is not valid base64. Relied upon as a function of the text alone.
pub uninterp spec fn b64_decoded(s: Seq<char>) -> Option<Seq<u8>>;

/// Relies on base64::decode: standard base64 decoding of the text, a function
/// of the text alone, failing exactly on malformed base64.
#[verifier::external_body]
pub(crate) fn base64_decode(s: &str) -> (r: Option<Vec<u8>>)
    ensures
        match r {
            Some(v) => b64_decoded(s@) == Some(v@),
            None => b64_decoded(s@) is None,
        },
{
    base64::decode(s).ok()
}

impl Quote {
    /// Both records are well formed.
    pub open spec fn wf(&self) -> bool {
        self.body.wf() && self.report_body.wf()
    }

    /// The wire form of the quote: both records back-to-back.
    pub open spec fn encoded(&self) -> Seq<u8> {
        self.body.encoded() + self.report_body.encoded()
    }

    /// Decodes a quote from exactly `QUOTE_BYTES` bytes: the first 48 fill
    /// the body, the next 384 the report body. The result re-encodes to the
    /// input.
    pub fn from_bytes(bytes: &Vec<u8>) -> (r: Result<Quote, DecodeError>)
        ensures
            bytes@.len() == QUOTE_BYTES ==> (r matches Ok(q) && q.wf() && q.encoded() == bytes@),
            bytes@.len() < QUOTE_BYTES ==> r == Err::<Quote, DecodeError>(DecodeError::Length),
            bytes@.len() > QUOTE_BYTES ==> r == Err::<Quote, DecodeError>(
                DecodeError::TrailingData,
            ),
    {
        if bytes.len() < QUOTE_BYTES {
            return Err(DecodeError::Length);
        }
        if bytes.len() > QUOTE_BYTES {
            return Err(DecodeError::TrailingData);
        }
        let body_bytes = copy_range(bytes, 0, QUOTE_BODY_BYTES);
        let report_bytes = copy_range(bytes, QUOTE_BODY_BYTES, QUOTE_REPORT_BODY_BYTES);
        let body = match QBody::from_bytes_read(&body_bytes) {
            Ok(b) => b,
            Err(e) => {
                return Err(e);
            },
        };
        let report_body = match QReportBody::from_bytes_read(&report_bytes) {
            Ok(b) => b,
            Err(e) => {
                return Err(e);
            },
        };
        let q = Quote { body, report_body };
        proof {
            assert(q.encoded() =~= bytes@);
        }
        Ok(q)
    }

    /// Decodes a base64 quote string: malformed base64 fails with
    /// `DecodeError::Encoding`, and the decoded bytes must hold exactly both
    /// records, as `from_bytes` demands.
    pub fn from_base64(encoded_quote: &str) -> (r: Result<Quote, DecodeError>)
        ensures
            b64_decoded(encoded_quote@) is None ==> r == Err::<Quote, DecodeError>(
                DecodeError::Encoding,
            ),
            b64_decoded(encoded_quote@) matches Some(b) ==> {
                &&& b.len() == QUOTE_BYTES ==> (r matches Ok(q) && q.wf() && q.encoded() == b)
                &&& b.len() < QUOTE_BYTES ==> r == Err::<Quote, DecodeError>(DecodeError::Length)
                &&& b.len() > QUOTE_BYTES ==> r == Err::<Quote, DecodeError>(
                    DecodeError::TrailingData,
                )
            },
    {
        let quote_bytes = match base64_decode(encoded_quote) {
            Some(v) => v,
            None => {
                return Err(DecodeError::Encoding);
            },
        };
        Quote::from_bytes(&quote_bytes)
    }

    /// Re-encodes the quote to its wire form, both records back-to-back.
    pub fn to_bytes(&self) -> (r: Vec<u8>)
        ensures
            r@ == self.encoded(),
    {
        let mut r = self.body.to_bytes();
        let rest = self.report_body.to_bytes();
        push_all(&mut r, &rest);
        r
    }
}

/// Round trip: any well-formed quote, in particular any result of
/// `from_bytes` or `from_base64`, re-encodes record after record to exactly
/// the 432 bytes it was decoded from.
pub proof fn lemma_quote_round_trip(bytes: Seq<u8>, q: Quote)
    requires
        q.wf(),
        q.encoded() == bytes,
    ensures
        q.body.encoded() + q.report_body.encoded() == bytes,
        bytes.len() == QUOTE_BYTES,
{
}

/// Positions on the wire of the fields a caller binds an identity to: the
/// report data is the last 64 bytes of the quote, and the enclave measurement
/// stands right after the 48-byte body and the report body's first 64 bytes.
pub proof fn lemma_identity_field_positions(bytes: Seq<u8>, q: Quote)
    requires
        q.wf(),
        q.encoded() == bytes,
    ensures
        q.report_body.report_data@ == bytes.subrange(368, 432),
        q.report_body.mr_enclave@ == bytes.subrange(112, 144),
        q.report_body.mr_signer@ == bytes.subrange(176, 208),
{
    assert(q.report_body.report_data@ =~= bytes.subrange(368, 432));
    assert(q.report_body.mr_enclave@ =~= bytes.subrange(112, 144));
    assert(q.report_body.mr_signer@ =~= bytes.subrange(176, 208));
}

} // verus!
