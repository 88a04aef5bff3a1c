//! Attestation client: configuration of the HTTP conversation with the remote
//! attestation authority, the request envelope, and the retry policy. The
//! network transport itself lives outside the library; it drives the
//! `RetrySession` state machine, whose observable behaviour over any sequence
//! of attempt outcomes is pinned down by `spec_run` and proved in
//! `lemma_retry_first_success` and `lemma_retry_exhausted`: the first success
//! is returned at once, and a budget of `retries` extra attempts is exhausted
//! after exactly `retries + 1` attempts.

use vstd::prelude::*;
use vstd::string::StringExecFns;

use crate::errors::ClientError;

verus! {

/// Default retry budget: attempts beyond the first on a failed request.
pub const ATTESTATION_SERVICE_DEFAULT_RETRIES: u32 = 10;

/// Owns the configuration of the conversation with the remote attestation
/// authority: the endpoint and the retry budget. It holds no cross-request
/// state, so concurrent submissions need no locking.
pub struct AttestationService {
    /// The endpoint requests are POSTed to.
    pub connection_str: String,
    /// Retry budget: attempts beyond the first on a failed request.
    pub retries: u32,
}

impl AttestationService {
    /// A client for `conn_str` with the default retry budget.
    pub fn new(conn_str: &str) -> (r: AttestationService)
        ensures
            r.connection_str@ == conn_str@,
            r.retries == ATTESTATION_SERVICE_DEFAULT_RETRIES,
    {
        AttestationService {
            connection_str: conn_str.to_owned(),
            retries: ATTESTATION_SERVICE_DEFAULT_RETRIES,
        }
    }

    /// A client for `conn_str` with an explicit retry budget.
    pub fn new_with_retries(conn_str: &str, retries: u32) -> (r: AttestationService)
        ensures
            r.connection_str@ == conn_str@,
            r.retries == retries,
    {
        AttestationService { connection_str: conn_str.to_owned(), retries }
    }

    /// Opens the retry state for one submission: the whole budget unused.
    pub fn begin_session(&self) -> (s: RetrySession)
        ensures
            s.attempts_left == self.retries,
    {
        RetrySession { attempts_left: self.retries }
    }

    /// Runs one submission over a fixed sequence of attempt outcomes (`true`
    /// is a successful attempt), exactly as the transport loop does: attempt,
    /// and on failure retry while the budget allows. Returns how many
    /// attempts were performed and whether the submission succeeded.
    pub fn run_attempts(&self, outcomes: &Vec<bool>) -> (r: (u64, bool))
        requires
            self.retries < outcomes@.len(),
        ensures
            (r.0 as nat, r.1) == spec_run(outcomes@, self.retries as nat),
    {
        let mut session = self.begin_session();
        let mut i: u32 = 0;
        proof {
            assert(outcomes@.skip(0) =~= outcomes@);
        }
        loop
            invariant
                i <= self.retries,
                self.retries < outcomes@.len(),
                session.attempts_left == self.retries - i,
                forall|j: int| 0 <= j < i ==> !outcomes@[j],
                spec_run(outcomes@, self.retries as nat) == (
                    (i + spec_run(outcomes@.skip(i as int), (self.retries - i) as nat).0) as nat,
                    spec_run(outcomes@.skip(i as int), (self.retries - i) as nat).1,
                ),
            decreases self.retries - i,
        {
            proof {
                assert(outcomes@.skip(i as int).len() > 0);
                assert(outcomes@.skip(i as int).first() == outcomes@[i as int]);
            }
            if outcomes[i as usize] {
                proof {
                    assert(spec_run(outcomes@.skip(i as int), (self.retries - i) as nat) == (
                        1nat,
                        true,
                    ));
                }
                return ((i as u64) + 1, true);
            }
            let retry = session.record_failure();
            if !retry {
                proof {
                    assert(self.retries - i == 0);
                    assert(spec_run(outcomes@.skip(i as int), (self.retries - i) as nat) == (
                        1nat,
                        false,
                    ));
                }
                return ((i as u64) + 1, false);
            }
            proof {
                assert(outcomes@.skip(i as int).drop_first() =~= outcomes@.skip(i as int + 1));
            }
            i = i + 1;
        }
    }
}

/// One submission's retry state: how many attempts beyond the current one the
/// budget still allows.
pub struct RetrySession {
    pub attempts_left: u32,
}

impl RetrySession {
    /// Records one failed attempt. Returns whether another attempt is
    /// allowed, consuming one unit of the budget when it is.
    pub fn record_failure(&mut self) -> (retry: bool)
        ensures
            retry == (old(self).attempts_left > 0),
            final(self).attempts_left == if old(self).attempts_left > 0 {
                (old(self).attempts_left - 1) as u32
            } else {
                0u32
            },
    {
        if self.attempts_left > 0 {
            self.attempts_left = self.attempts_left - 1;
            true
        } else {
            false
        }
    }
}

/// The observable behaviour of the submission loop over the transport's
/// successive attempt outcomes (`true` is a successful attempt), for a budget
/// of `budget` attempts beyond the first: how many attempts are performed,
/// and whether the submission succeeds.
pub open spec fn spec_run(outcomes: Seq<bool>, budget: nat) -> (nat, bool)
    decreases outcomes.len(),
{
    if outcomes.len() == 0 {
        (0nat, false)
    } else if outcomes.first() {
        (1nat, true)
    } else if budget == 0 {
        (1nat, false)
    } else {
        let rest = spec_run(outcomes.drop_first(), (budget - 1) as nat);
        ((rest.0 + 1) as nat, rest.1)
    }
}

/// Retry policy, first half: when the transport fails the first `k` attempts
/// and succeeds on the next, with `k` within the retry budget, the submission
/// succeeds after exactly `k + 1` attempts.
pub proof fn lemma_retry_first_success(outcomes: Seq<bool>, budget: nat, k: nat)
    requires
        k <= budget,
        k < outcomes.len(),
        forall|i: int| 0 <= i < k ==> !outcomes[i],
        outcomes[k as int],
    ensures
        spec_run(outcomes, budget) == ((k + 1) as nat, true),
    decreases k,
{
    if k == 0 {
    } else {
        assert(!outcomes[0]);
        assert(forall|i: int|
            0 <= i < k - 1 ==> !outcomes.drop_first()[i] && outcomes.drop_first()[i] == outcomes[i
                + 1]);
        lemma_retry_first_success(outcomes.drop_first(), (budget - 1) as nat, (k - 1) as nat);
    }
}

/// Retry policy, second half: when every attempt fails, the submission fails
/// after exactly `budget + 1` attempts, the first plus the whole budget.
pub proof fn lemma_retry_exhausted(outcomes: Seq<bool>, budget: nat)
    requires
        budget < outcomes.len(),
        forall|i: int| 0 <= i <= budget ==> !outcomes[i],
    ensures
        spec_run(outcomes, budget) == ((budget + 1) as nat, false),
    decreases budget,
{
    assert(!outcomes[0]);
    if budget == 0 {
    } else {
        assert(forall|i: int|
            0 <= i <= budget - 1 ==> !outcomes.drop_first()[i] && outcomes.drop_first()[i]
                == outcomes[i + 1]);
        lemma_retry_exhausted(outcomes.drop_first(), (budget - 1) as nat);
    }
}

/// Classifies one HTTP answer: success exactly on a 2xx status; any other
/// status is the retryable `ClientError::HttpStatus`.
pub fn classify_status(status: u16) -> (r: Result<(), ClientError>)
    ensures
        (200 <= status < 300) ==> r == Ok::<(), ClientError>(()),
        !(200 <= status < 300) ==> r == Err::<(), ClientError>(ClientError::HttpStatus(status)),
{
    if 200 <= status && status < 300 {
        Ok(())
    } else {
        Err(ClientError::HttpStatus(status))
    }
}

/// The JSON body of a request to the authority, for a given quote text: one
/// field, `isvEnclaveQuote`, holding the quote text verbatim.
pub open spec fn spec_ias_body(quote: Seq<char>) -> Seq<char> {
    "{\"isvEnclaveQuote\":\""@ + quote + "\"}"@
}

/// The request envelope sent to the attestation authority.
pub struct IASRequest {
    pub isv_enclave_quote: String,
}

impl IASRequest {
    /// A request envelope for one base64 quote.
    pub fn new(quote: String) -> (r: IASRequest)
        ensures
            r.isv_enclave_quote@ == quote@,
    {
        IASRequest { isv_enclave_quote: quote }
    }

    /// The request body: JSON with the single field `isvEnclaveQuote`
    /// holding the quote text verbatim.
    pub fn to_json_body(&self) -> (r: String)
        ensures
            r@ == spec_ias_body(self.isv_enclave_quote@),
    {
        let mut s = String::from_str("{\"isvEnclaveQuote\":\"");
        s.append(self.isv_enclave_quote.as_str());
        s.append("\"}");
        s
    }
}

/// Name of the request header that carries the API credential.
pub fn credential_header_name() -> (r: &'static str)
    ensures
        r@ == "Ocp-Apim-Subscription-Key"@,
{
    "Ocp-Apim-Subscription-Key"
}

/// Value-and-name of the content-type request header.
pub fn content_type_header() -> (r: (&'static str, &'static str))
    ensures
        r.0@ == "Content-type"@,
        r.1@ == "application/json"@,
{
    ("Content-type", "application/json")
}

/// Parameters of the legacy JSON-RPC quote submission.
#[derive(Debug, Clone)]
pub struct Params {
    pub quote: String,
    pub production: bool,
}

/// The legacy JSON-RPC request envelope for a quote submission.
#[derive(Debug, Clone)]
pub struct QuoteRequest {
    pub jsonrpc: String,
    pub method: String,
    pub params: Params,
    pub id: i32,
}

} // verus!
