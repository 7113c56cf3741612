use vstd::prelude::*;

verus! {

/// The DNS servers the Android system reports, in network byte order; zero
/// where none is configured.
#[derive(Clone, Copy, Debug, PartialEq, Eq, Structural)]
pub struct DnsResponse {
    pub primary: u32,
    pub secondary: u32,
}

/// The servers a network session is configured with: none when the system
/// reports neither.
pub open spec fn configured_servers(primary: u32, secondary: u32) -> Option<(u32, u32)> {
    if primary == 0 && secondary == 0 {
        None
    } else {
        Some((primary, secondary))
    }
}

impl DnsResponse {
    /// The pair (primary, secondary) to configure, or `None` when both are
    /// zero.
    pub fn servers(&self) -> (res: Option<(u32, u32)>)
        ensures
            res == configured_servers(self.primary, self.secondary),
    {
        if self.primary == 0 && self.secondary == 0 {
            None
        } else {
            Some((self.primary, self.secondary))
        }
    }
}

/// Servers are configured exactly when one of them is set, and then as
/// reported.
pub proof fn lemma_servers_passed_through(primary: u32, secondary: u32)
    ensures
        configured_servers(primary, secondary) is None <==> (primary == 0 && secondary == 0),
        configured_servers(primary, secondary) is Some ==> configured_servers(primary, secondary)
            == Some((primary, secondary)),
{
}

} // verus!
