use vstd::prelude::*;
use crate::errors::ErpError;
use crate::extract::{extract, extracted_attr, selector_is_valid};

verus! {

/// Exact byte length of the logged-out placeholder page: the liveness
/// fingerprint. This is a byte-length heuristic, not a semantic check of
/// authentication state: any page that coincidentally has this byte length
/// produces a false positive, and a change to the server's placeholder page
/// silently breaks the check until this constant is updated.
pub const ALIVE_CONTENT_LENGTH: u64 = 1034;

/// Transport-level timeout, in seconds, applied by the embedding program to
/// every request of a session.
pub const DEFAULT_TIMEOUT_SECS: u64 = 20;

/// The roll number a secret-question call works with: the explicit argument
/// when one is given, else whatever roll number the session already stores.
pub open spec fn resolved_roll(
    stored: Option<Seq<char>>,
    explicit: Option<Seq<char>>,
) -> Option<Seq<char>> {
    if explicit is Some {
        explicit
    } else {
        stored
    }
}

/// The stored security question after a secret-question response with body
/// `body` has been interpreted: the literal failure marker leaves the stored
/// question untouched, any other body becomes the question verbatim.
pub open spec fn question_after(prev: Option<Seq<char>>, body: Seq<char>) -> Option<Seq<char>> {
    if body == "FALSE"@ {
        prev
    } else {
        Some(body)
    }
}

/// An explicit roll number overwrites the stored one, regardless of what was
/// stored before.
pub proof fn lemma_explicit_roll_overwrites(stored: Option<Seq<char>>, roll: Seq<char>)
    ensures
        resolved_roll(stored, Some(roll)) == Some(roll),
{
}

/// Interpreting the same secret-question response body twice stores the same
/// question as interpreting it once: against a deterministic endpoint, two
/// consecutive secret-question calls with the same roll number leave the same
/// stored question text.
pub proof fn lemma_question_idempotent(prev: Option<Seq<char>>, body: Seq<char>)
    ensures
        question_after(question_after(prev, body), body) == question_after(prev, body),
{
}

/// The stored question is never the literal failure marker: interpreting a
/// response can only store a non-marker body, so a session whose stored
/// question is not the marker keeps that invariant.
pub proof fn lemma_question_never_failure_marker(prev: Option<Seq<char>>, body: Seq<char>)
    requires
        prev != Some("FALSE"@),
    ensures
        question_after(prev, body) != Some("FALSE"@),
{
}

/// The default header set: the fixed user-agent string alone.
pub open spec fn is_default_headers(h: Vec<(String, String)>) -> bool {
    &&& h.len() == 1
    &&& h[0].0@ == "User-Agent"@
    &&& h[0].1@
        == "Mozilla/5.0 (X11; Linux x86_64) AppleWebKit/537.36 (KHTML, like Gecko) Ubuntu Chromium/51.0.2704.79 Chrome/51.0.2704.79 Safari/537.36"@
}

/// Builds the default header set applied to every request.
pub fn get_default_headers() -> (r: Vec<(String, String)>)
    ensures
        is_default_headers(r),
{
    let mut headers: Vec<(String, String)> = Vec::new();
    headers.push(
        (
            "User-Agent".to_owned(),
            "Mozilla/5.0 (X11; Linux x86_64) AppleWebKit/537.36 (KHTML, like Gecko) Ubuntu Chromium/51.0.2704.79 Chrome/51.0.2704.79 Safari/537.36".to_owned(),
        ),
    );
    headers
}

/// Per-user handshake state: identity, retrieved challenge material, and the
/// header set plus timeout the embedding transport must apply to every
/// request of this session.
///
/// One `Session` is created per logical user interaction, mutated in place
/// through the ordered handshake steps, and discarded when the flow ends. The
/// network round trips themselves are the embedding program's: each
/// state-changing step here either fully applies its mutation or fails
/// without mutating.
pub struct Session {
    /// Roll number.
    pub user_id: Option<String>,
    /// ERP password (held for the later steps, unused by the steps here).
    pub password: Option<String>,
    /// The security question for this session, once retrieved.
    pub question: Option<String>,
    /// Caller-supplied answer to the security question, stored but not yet
    /// transmitted.
    pub answer: Option<String>,
    /// Session token extracted from the homepage.
    pub session_token: Option<String>,
    /// The portal URL the flow is ultimately destined for.
    pub requested_url: Option<String>,
    /// One-time code, for the not-yet-specified final step.
    pub email_otp: Option<String>,
    /// Headers for every request of this session.
    pub headers: Vec<(String, String)>,
    /// Transport-level timeout, in seconds, for every request of this session.
    pub timeout_secs: u64,
}

impl Session {
    /// Creates a session bound to an optional identity. Handshake progress
    /// starts empty; the header set defaults to `get_default_headers()` when
    /// none is supplied, and the timeout to `DEFAULT_TIMEOUT_SECS`.
    pub fn new(
        user_id: Option<String>,
        password: Option<String>,
        headers: Option<Vec<(String, String)>>,
    ) -> (r: Session)
        ensures
            r.user_id == user_id,
            r.password == password,
            r.question is None,
            r.answer is None,
            r.session_token is None,
            r.requested_url is None,
            r.email_otp is None,
            headers matches Some(h) ==> r.headers == h,
            headers is None ==> is_default_headers(r.headers),
            r.timeout_secs == DEFAULT_TIMEOUT_SECS,
    {
        let headers = match headers {
            Some(h) => h,
            None => get_default_headers(),
        };
        Session {
            user_id,
            password,
            question: None,
            answer: None,
            session_token: None,
            requested_url: None,
            email_otp: None,
            headers,
            timeout_secs: DEFAULT_TIMEOUT_SECS,
        }
    }

    /// Interprets the liveness probe's response: the session counts as alive
    /// exactly when the response body's length equals the fingerprint
    /// `ALIVE_CONTENT_LENGTH`; an unknown length counts as not alive.
    pub fn is_alive(&self, content_length: Option<u64>) -> (r: bool)
        ensures
            r == (content_length == Some(ALIVE_CONTENT_LENGTH)),
    {
        match content_length {
            Some(len) => len == ALIVE_CONTENT_LENGTH,
            None => false,
        }
    }

    /// Extracts the session token out of a fetched homepage document: the
    /// `value` attribute of the first element with identifier `sessionToken`.
    ///
    /// Absence of the element or of the attribute is a normal result, never
    /// an error. The session itself is not mutated: the token is returned to
    /// the caller, not stored.
    pub fn get_sessiontoken(&self, homepage: &str) -> (r: Result<Option<String>, ErpError>)
        ensures
            r is Ok <==> selector_is_valid("#sessionToken"@),
            r matches Ok(v) ==> v.deep_view() == extracted_attr(
                homepage@,
                "#sessionToken"@,
                "value"@,
            ),
            r matches Err(e) ==> e == ErpError::Parse,
    {
        extract(homepage, "#sessionToken", "value")
    }

    /// Resolves the roll number a secret-question call works with and stores
    /// it as this session's identity. This is the one point where the stored
    /// identity can change, and it happens before any network request: with
    /// neither an explicit roll number nor a stored one, the step fails as a
    /// precondition error and the session is untouched.
    pub fn begin_secret_question(&mut self, roll_number: Option<String>) -> (r: Result<
        String,
        ErpError,
    >)
        ensures
            resolved_roll(old(self).user_id.deep_view(), roll_number.deep_view()) is None ==> {
                &&& r == Result::<String, ErpError>::Err(ErpError::MissingRollNumber)
                &&& *final(self) == *old(self)
            },
            resolved_roll(old(self).user_id.deep_view(), roll_number.deep_view()) matches Some(n)
                ==> {
                &&& r matches Ok(roll) && roll@ == n
                &&& final(self).user_id.deep_view() == Some(n)
            },
            roll_number matches Some(explicit) ==> final(self).user_id.deep_view() == Some(
                explicit@,
            ),
            final(self).password == old(self).password,
            final(self).question == old(self).question,
            final(self).answer == old(self).answer,
            final(self).session_token == old(self).session_token,
            final(self).requested_url == old(self).requested_url,
            final(self).email_otp == old(self).email_otp,
            final(self).headers == old(self).headers,
            final(self).timeout_secs == old(self).timeout_secs,
    {
        let roll: String = match roll_number {
            Some(explicit) => explicit,
            None => match &self.user_id {
                Some(stored) => stored.clone(),
                None => {
                    return Err(ErpError::MissingRollNumber);
                },
            },
        };
        self.user_id = Some(roll.clone());
        Ok(roll)
    }

    /// Interprets the body of a secret-question response. The literal
    /// `"FALSE"` is the server's sole recognized error signal: the roll
    /// number is invalid and the session is untouched. Any other body is
    /// taken verbatim — no trimming, unescaping or validation — as the
    /// security question, stored, and returned.
    pub fn finish_secret_question(&mut self, body: String) -> (r: Result<String, ErpError>)
        ensures
            final(self).question.deep_view() == question_after(
                old(self).question.deep_view(),
                body@,
            ),
            body@ == "FALSE"@ ==> {
                &&& r == Result::<String, ErpError>::Err(ErpError::InvalidRollNumber)
                &&& *final(self) == *old(self)
            },
            body@ != "FALSE"@ ==> {
                &&& r matches Ok(question) && question == body
                &&& final(self).question.deep_view() == Some(body@)
            },
            final(self).user_id == old(self).user_id,
            final(self).password == old(self).password,
            final(self).answer == old(self).answer,
            final(self).session_token == old(self).session_token,
            final(self).requested_url == old(self).requested_url,
            final(self).email_otp == old(self).email_otp,
            final(self).headers == old(self).headers,
            final(self).timeout_secs == old(self).timeout_secs,
    {
        let marker: String = "FALSE".to_owned();
        if body == marker {
            Err(ErpError::InvalidRollNumber)
        } else {
            self.question = Some(body.clone());
            Ok(body)
        }
    }

    /// Extension point for the one-time-code submission step. Its wire
    /// contract (fields, endpoint, validation) is not yet known, so the step
    /// only records the caller-supplied material and reports
    /// `NotImplemented`.
    pub fn request_otp(&mut self, email_otp: Option<String>, answer: String) -> (r: Result<
        String,
        ErpError,
    >)
        ensures
            r == Result::<String, ErpError>::Err(ErpError::NotImplemented),
            final(self).answer == Some(answer),
            final(self).email_otp == email_otp,
            final(self).user_id == old(self).user_id,
            final(self).password == old(self).password,
            final(self).question == old(self).question,
            final(self).session_token == old(self).session_token,
            final(self).requested_url == old(self).requested_url,
            final(self).headers == old(self).headers,
            final(self).timeout_secs == old(self).timeout_secs,
    {
        self.answer = Some(answer);
        self.email_otp = email_otp;
        Err(ErpError::NotImplemented)
    }
}

impl Default for Session {
    /// A session bound to no identity, with the default header set.
    fn default() -> (r: Session)
        ensures
            r.user_id is None,
            r.password is None,
            r.question is None,
            r.answer is None,
            r.session_token is None,
            r.requested_url is None,
            r.email_otp is None,
            is_default_headers(r.headers),
            r.timeout_secs == DEFAULT_TIMEOUT_SECS,
    {
        Session::new(None, None, None)
    }
}

} // verus!
