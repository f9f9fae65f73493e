use vstd::prelude::*;

verus! {

/// Why the queue turned a packet down, and what an acknowledgment says of one
/// candidate.
#[derive(Clone, Copy, Debug, PartialEq, Eq, Structural)]
pub enum StatusCode {
    /// Accepted for transmission.
    Accepted,
    /// Scheduled at or behind the point that lies the grace window before now.
    TooLate,
    /// Scheduled further ahead than the look-ahead horizon.
    TooEarly,
    /// Closer than the guard interval to a packet already queued.
    CollisionPacket,
    /// Closer than the guard interval to a reserved beacon window.
    CollisionBeacon,
    /// The radio chain is not configured or does not cover the frequency.
    TxFreq,
    /// The radio cannot deliver the requested power.
    TxPower,
    /// The queue holds as many packets as it may.
    QueueFull,
    /// Something failed inside the gateway.
    InternalError,
    /// Never attempted.
    Ignored,
}

impl StatusCode {
    /// True for `Accepted` alone.
    pub open spec fn is_accepted(self) -> bool {
        self == StatusCode::Accepted
    }

    /// Whether the code says that the packet was accepted.
    pub fn accepted(self) -> (r: bool)
        ensures
            r == self.is_accepted(),
    {
        self == StatusCode::Accepted
    }
}

impl Default for StatusCode {
    /// A status that nobody touched reads `Ignored`.
    fn default() -> (r: StatusCode)
        ensures
            r == StatusCode::Ignored,
    {
        StatusCode::Ignored
    }
}

} // verus!
