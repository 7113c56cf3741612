use vstd::prelude::*;

use crate::state::NetworkSessionConsent;

verus! {

/// For how long a granted network access is remembered.
pub const CONSENT_ALLOW_TIMEOUT_SECONDS: u64 = 60 * 5;

/// For how long a denied network access is remembered.
pub const CONSENT_DENY_TIMEOUT_SECONDS: u64 = 5;

/// Whether an answer given `age_seconds` ago still stands: a grant for five
/// minutes, a denial for five seconds.
pub open spec fn consent_is_fresh(consent: bool, age_seconds: u64) -> bool {
    if consent {
        age_seconds <= CONSENT_ALLOW_TIMEOUT_SECONDS
    } else {
        age_seconds <= CONSENT_DENY_TIMEOUT_SECONDS
    }
}

/// The answer that is reused for a new request, given the last answer and its
/// age in seconds; `None` means that the user has to be asked again.
pub open spec fn reused_consent(
    previous: NetworkSessionConsent,
    age_seconds: u64,
) -> NetworkSessionConsent {
    match previous {
        Some((consent, _)) => if consent_is_fresh(consent, age_seconds) {
            previous
        } else {
            None
        },
        None => None,
    }
}

/// Whether an answer grants network access.
pub open spec fn grants_access(consent: NetworkSessionConsent) -> bool {
    match consent {
        Some((granted, _)) => granted,
        None => false,
    }
}

/// Whether an answer given `age_seconds` ago still stands.
pub fn consent_still_valid(consent: bool, age_seconds: u64) -> (res: bool)
    ensures
        res == consent_is_fresh(consent, age_seconds),
{
    if consent {
        age_seconds <= CONSENT_ALLOW_TIMEOUT_SECONDS
    } else {
        age_seconds <= CONSENT_DENY_TIMEOUT_SECONDS
    }
}

/// The last answer if it still stands `age_seconds` after it was given, else
/// `None`: then the user is asked again.
pub fn reusable_consent(previous: NetworkSessionConsent, age_seconds: u64) -> (res:
    NetworkSessionConsent)
    ensures
        res == reused_consent(previous, age_seconds),
{
    match previous {
        Some((consent, _)) => {
            if consent_still_valid(consent, age_seconds) {
                previous
            } else {
                None
            }
        },
        None => None,
    }
}

/// Whether an answer grants network access.
pub fn consent_granted(consent: &NetworkSessionConsent) -> (res: bool)
    ensures
        res == grants_access(*consent),
{
    match consent {
        Some((granted, _)) => *granted,
        None => false,
    }
}

/// Why a network session was not opened.
#[derive(Clone, Copy, Debug, PartialEq, Eq, Structural)]
pub enum OpenSessionError {
    Other,
}

impl OpenSessionError {
    /// The code reported to the webview in place of a session id.
    pub fn code(&self) -> (res: isize)
        ensures
            res == -1,
    {
        -1
    }
}

/// The value a session id has as an `isize`: the id itself wherever it fits,
/// as on every 64-bit target; else the id wrapped around by 2^32.
pub open spec fn session_code(session_id: u32) -> int {
    if session_id <= isize::MAX {
        session_id as int
    } else {
        session_id - 0x1_0000_0000
    }
}

/// The code reported to the webview for an opened session.
pub fn session_id_code(session_id: u32) -> (res: isize)
    ensures
        res as int == session_code(session_id),
{
    if session_id as u64 <= isize::MAX as u64 {
        session_id as isize
    } else {
        let below_max: isize = (u32::MAX - session_id) as isize;
        -below_max - 1
    }
}

/// The code reported for a request to open a session, given the answer that
/// stands and the session the backend opened, if it opened one: the
/// session's code where access is granted and a session was opened, else the
/// error code.
pub open spec fn open_session_result(consent: NetworkSessionConsent, opened: Option<u32>) -> int {
    match opened {
        Some(session_id) => if grants_access(consent) {
            session_code(session_id)
        } else {
            -1
        },
        None => -1,
    }
}

/// The code reported for a request to open a session, given the answer that
/// stands and the session the backend opened, if it opened one.
pub fn open_session_code(consent: &NetworkSessionConsent, opened: Option<u32>) -> (res: isize)
    ensures
        res as int == open_session_result(*consent, opened),
{
    match opened {
        Some(session_id) => {
            if consent_granted(consent) {
                session_id_code(session_id)
            } else {
                OpenSessionError::Other.code()
            }
        },
        None => OpenSessionError::Other.code(),
    }
}

/// Without an answer that grants access no session is reported, whatever the
/// backend did: the request is answered with the error code.
pub proof fn lemma_no_session_without_grant(
    consent: NetworkSessionConsent,
    opened: Option<u32>,
)
    ensures
        !grants_access(consent) ==> open_session_result(consent, opened) == -1,
        grants_access(consent) && opened is Some && opened->0 <= isize::MAX ==> open_session_result(
            consent,
            opened,
        ) == opened->0 as int,
{
}

/// The result of a remote procedure call of a network session, handed to the
/// webview.
#[derive(Clone)]
pub struct NetRpcResultPayload {
    session_id: u32,
    rpc_data: Vec<u8>,
}

impl NetRpcResultPayload {
    /// The result `rpc_data` of a call in session `session_id`.
    pub fn new(session_id: u32, rpc_data: Vec<u8>) -> (res: NetRpcResultPayload)
        ensures
            res.spec_session_id() == session_id,
            res.spec_rpc_data() == rpc_data@,
    {
        NetRpcResultPayload { session_id, rpc_data }
    }

    pub closed spec fn spec_session_id(&self) -> u32 {
        self.session_id
    }

    pub closed spec fn spec_rpc_data(&self) -> Seq<u8> {
        self.rpc_data@
    }

    /// The session the result belongs to.
    pub fn session_id(&self) -> (res: u32)
        ensures
            res == self.spec_session_id(),
    {
        self.session_id
    }

    /// The bytes of the result.
    pub fn rpc_data(&self) -> (res: &Vec<u8>)
        ensures
            res@ == self.spec_rpc_data(),
    {
        &self.rpc_data
    }
}

/// A granted access is reused for five minutes after the answer and a denial
/// for five seconds; after that the user is asked again.
pub proof fn lemma_consent_windows(previous: NetworkSessionConsent, age_seconds: u64)
    requires
        previous is Some,
    ensures
        grants_access(previous) ==> (reused_consent(previous, age_seconds) == previous
            <==> age_seconds <= 300),
        !grants_access(previous) ==> (reused_consent(previous, age_seconds) == previous
            <==> age_seconds <= 5),
        reused_consent(previous, age_seconds) is None <==> !consent_is_fresh(
            grants_access(previous),
            age_seconds,
        ),
{
}

/// An answer that stands at some age stood at every earlier age.
pub proof fn lemma_consent_freshness_monotonic(consent: bool, younger: u64, older: u64)
    requires
        younger <= older,
        consent_is_fresh(consent, older),
    ensures
        consent_is_fresh(consent, younger),
{
}

/// Without an earlier answer the user is always asked, and a reused answer is
/// the earlier one unchanged, so it grants access only if that one did.
pub proof fn lemma_reuse_keeps_answer(previous: NetworkSessionConsent, age_seconds: u64)
    ensures
        previous is None ==> reused_consent(previous, age_seconds) is None,
        reused_consent(previous, age_seconds) is Some ==> reused_consent(previous, age_seconds)
            == previous,
        grants_access(reused_consent(previous, age_seconds)) ==> grants_access(previous),
{
}

/// The error code is negative, and every session id that fits an `isize` is
/// reported as itself, never negative, so the webview can tell them apart.
pub proof fn lemma_session_codes_distinct_from_error(session_id: u32)
    requires
        session_id <= isize::MAX,
    ensures
        session_code(session_id) == session_id as int,
        session_code(session_id) >= 0,
        session_code(session_id) != -1,
{
}

} // verus!
