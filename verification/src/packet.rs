use vstd::prelude::*;

verus! {

/// How the radio modulates a transmission.
#[derive(Clone, Copy, Debug, PartialEq, Eq, Structural)]
pub enum Modulation {
    LoRa,
    Fsk,
}

/// A transmission as the radio takes it, with the identifier of the downlink
/// that it belongs to.
#[derive(Clone, Debug, PartialEq, Eq)]
pub struct ScheduledPacket {
    /// Identifier that the acknowledgment carries back.
    pub downlink_id: u32,
    /// Tick at which to transmit, on the wrapping counter.
    pub count_us: u32,
    /// Centre frequency in Hz.
    pub freq_hz: u32,
    /// Bandwidth in Hz; zero where the modulation has none to choose.
    pub bandwidth: u32,
    pub modulation: Modulation,
    /// Spreading factor for LoRa, bit rate for FSK.
    pub datarate: u32,
    /// Power at the radio's output in dBm.
    pub rf_power: i16,
    /// Radio chain that transmits.
    pub rf_chain: u8,
    pub payload: Vec<u8>,
}

/// What a `ScheduledPacket` holds, as a mathematical value.
pub struct PacketView {
    pub downlink_id: u32,
    pub count_us: u32,
    pub freq_hz: u32,
    pub bandwidth: u32,
    pub modulation: Modulation,
    pub datarate: u32,
    pub rf_power: i16,
    pub rf_chain: u8,
    pub payload: Seq<u8>,
}

impl View for ScheduledPacket {
    type V = PacketView;

    open spec fn view(&self) -> PacketView {
        PacketView {
            downlink_id: self.downlink_id,
            count_us: self.count_us,
            freq_hz: self.freq_hz,
            bandwidth: self.bandwidth,
            modulation: self.modulation,
            datarate: self.datarate,
            rf_power: self.rf_power,
            rf_chain: self.rf_chain,
            payload: self.payload@,
        }
    }
}

/// A vector that holds the bytes of `bytes`.
pub(crate) fn copy_bytes(bytes: &[u8]) -> (copy: Vec<u8>)
    ensures
        copy@ == bytes@,
{
    let mut copy: Vec<u8> = Vec::new();
    let mut i: usize = 0;
    while i < bytes.len()
        invariant
            i <= bytes.len(),
            copy@ == bytes@.take(i as int),
        decreases bytes.len() - i,
    {
        copy.push(bytes[i]);
        assert(bytes@.take(i + 1) =~= bytes@.take(i as int).push(bytes@[i as int]));
        i += 1;
    }
    assert(bytes@.take(i as int) =~= bytes@);
    copy
}

} // verus!
