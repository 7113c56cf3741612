use vstd::prelude::*;

use std::time::Instant;

verus! {

/// A point in time of the monotonic clock; the library only carries it.
#[verifier::external_type_specification]
#[verifier::external_body]
pub struct ExInstant(Instant);

/// The user's last answer to a network-access request, with the time it was
/// given; `None` before the first answer.
pub type NetworkSessionConsent = Option<(bool, Instant)>;

/// State shared by the commands of the shell.
pub struct State {
    pub network_session_consent: NetworkSessionConsent,
}

impl Default for State {
    /// No answer to a network-access request has been given yet.
    fn default() -> (res: State)
        ensures
            res.network_session_consent is None,
    {
        State { network_session_consent: None }
    }
}

} // verus!
