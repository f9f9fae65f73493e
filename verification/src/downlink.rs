use vstd::prelude::*;
use crate::gateway::{gateway_id_text, hex_string};
use crate::packet::{copy_bytes, Modulation, PacketView, ScheduledPacket};
use crate::queue::{QueueModel, TimeQueue};
use crate::status::StatusCode;
use crate::tick::{advance, tick_add};

verus! {

/// Longest payload that the radio sends.
pub const MAX_PAYLOAD: usize = 255;

/// Lowest power in dBm that a request may name.
pub const MIN_POWER: i32 = -128;

/// Highest power in dBm that a request may name.
pub const MAX_POWER: i32 = 127;

/// The modulation that a request asks for.
#[derive(Clone, Copy, Debug, PartialEq, Eq, Structural)]
pub enum PhyModulation {
    LoRa { bandwidth: u32, spreading_factor: u32 },
    Fsk { datarate: u32 },
    /// Frequency hopping, which a concentrator receives but does not send.
    LrFhss,
}

/// A span of time as a request gives it: whole seconds, and the billionths
/// of a second on top of them.
#[derive(Clone, Copy, Debug, PartialEq, Eq, Structural)]
pub struct Span {
    pub seconds: i64,
    pub nanos: i32,
}

/// When a request wants a candidate transmitted.
#[derive(Clone, Copy, Debug, PartialEq, Eq, Structural)]
pub enum Timing {
    /// As soon as possible. The queue schedules by tick alone, so this is
    /// not supported.
    Immediately,
    /// This long after the tick that the request's context names.
    Delay(Option<Span>),
    /// At a time of the GPS clock, which the queue does not know.
    GpsEpoch,
}

/// How a request wants one candidate transmitted.
#[derive(Clone, Debug, PartialEq, Eq)]
pub struct TxInfo {
    /// Centre frequency in Hz.
    pub frequency: u32,
    /// Radiated power in dBm, antenna included.
    pub power: i32,
    pub modulation: Option<PhyModulation>,
    /// Radio chain to transmit on; `TX_RF_CHAIN` where the request names
    /// none.
    pub rf_chain: Option<u8>,
    pub timing: Option<Timing>,
    /// The tick of the uplink that the downlink answers: four bytes, the
    /// most significant first.
    pub context: Vec<u8>,
}

/// One of the alternative ways to send a downlink.
#[derive(Clone, Debug, PartialEq, Eq)]
pub struct Candidate {
    pub payload: Vec<u8>,
    pub tx_info: Option<TxInfo>,
}

/// A downlink offered in one or more alternative forms, of which at most one
/// is to be transmitted; the first has the highest priority.
#[derive(Clone, Debug, PartialEq, Eq)]
pub struct DownlinkRequest {
    pub downlink_id: u32,
    pub items: Vec<Candidate>,
}

/// Why a candidate cannot be turned into a packet for the radio.
#[derive(Clone, Copy, Debug, PartialEq, Eq, Structural)]
pub enum ConvertError {
    MissingTxInfo,
    PayloadTooLarge,
    PowerOutOfRange,
    MissingModulation,
    UnsupportedModulation,
    MissingTiming,
    UnsupportedTiming,
    MissingDelay,
    DelayOutOfRange,
    MalformedContext,
}

/// The frequencies on which one radio chain transmits, both ends included.
#[derive(Clone, Copy, Debug, PartialEq, Eq, Structural)]
pub struct FrequencyRange {
    pub tx_freq_min: u32,
    pub tx_freq_max: u32,
}

/// What the gateway answers to a downlink request: one status for each
/// candidate, in the candidates' order.
#[derive(Clone, Debug, PartialEq, Eq)]
pub struct DownlinkAck {
    /// The gateway's identifier in hexadecimal digits.
    pub gateway_id: String,
    pub downlink_id: u32,
    pub items: Vec<StatusCode>,
}

/// The acknowledgment of a request, and the one status that counts for the
/// request as a whole.
#[derive(Clone, Debug, PartialEq, Eq)]
pub struct DownlinkOutcome {
    pub ack: DownlinkAck,
    pub status: StatusCode,
}

/// Number of bytes in a context.
pub const CONTEXT_LEN: usize = 4;

/// The radio chain that transmits where a request names none.
pub const TX_RF_CHAIN: u8 = 0;

/// Ticks in one second.
pub const TICKS_PER_SECOND: u64 = 1_000_000;

/// Billionths of a second in one tick.
pub const NANOS_PER_TICK: i32 = 1_000;

/// Billionths of a second in one second.
pub const NANOS_PER_SECOND: i32 = 1_000_000_000;

/// The radio chain that a candidate is transmitted on.
pub open spec fn target_chain(rf_chain: Option<u8>) -> u8 {
    match rf_chain {
        Some(chain) => chain,
        None => TX_RF_CHAIN,
    }
}

/// The number of whole ticks in a span. A span has one where neither part
/// is negative, the billionths stay below a second, and the ticks fit the
/// counter.
pub open spec fn span_ticks(span: Span) -> Option<u32> {
    let ticks = span.seconds as int * TICKS_PER_SECOND as int + span.nanos as int
        / NANOS_PER_TICK as int;
    if 0 <= span.seconds && 0 <= span.nanos < NANOS_PER_SECOND && ticks <= u32::MAX as int {
        Some(ticks as u32)
    } else {
        None
    }
}

/// The tick that a context of four bytes names, the most significant byte
/// first.
pub open spec fn context_tick(context: Seq<u8>) -> u32
    recommends
        context.len() == CONTEXT_LEN,
{
    (((context[0] as int * 256 + context[1] as int) * 256 + context[2] as int) * 256
        + context[3] as int) as u32
}

/// The modulation, bandwidth and data rate that the radio is given for what
/// a request asks; or why it cannot be given any.
pub open spec fn radio_modulation(modulation: Option<PhyModulation>) -> Result<
    (Modulation, u32, u32),
    ConvertError,
> {
    match modulation {
        None => Err(ConvertError::MissingModulation),
        Some(PhyModulation::LrFhss) => Err(ConvertError::UnsupportedModulation),
        Some(PhyModulation::LoRa { bandwidth, spreading_factor }) => Ok(
            (Modulation::LoRa, bandwidth, spreading_factor),
        ),
        Some(PhyModulation::Fsk { datarate }) => Ok((Modulation::Fsk, 0u32, datarate)),
    }
}

/// The tick at which a candidate is to be transmitted: the tick of its
/// context, moved on by its delay; or why it has none. The delay is looked
/// at before the context.
pub open spec fn scheduled_tick(timing: Option<Timing>, context: Seq<u8>) -> Result<
    u32,
    ConvertError,
> {
    match timing {
        None => Err(ConvertError::MissingTiming),
        Some(Timing::Immediately) => Err(ConvertError::UnsupportedTiming),
        Some(Timing::GpsEpoch) => Err(ConvertError::UnsupportedTiming),
        Some(Timing::Delay(None)) => Err(ConvertError::MissingDelay),
        Some(Timing::Delay(Some(span))) => match span_ticks(span) {
            None => Err(ConvertError::DelayOutOfRange),
            Some(delay) => if context.len() == CONTEXT_LEN {
                Ok(tick_add(context_tick(context), delay))
            } else {
                Err(ConvertError::MalformedContext)
            },
        },
    }
}

/// The packet that the radio takes for a candidate, before the antenna is
/// accounted for; or why there is none. The transmit information is looked
/// at first, then the payload's length, the power, the modulation, and the
/// timing.
pub open spec fn converted(item: Candidate, downlink_id: u32) -> Result<PacketView, ConvertError> {
    match item.tx_info {
        None => Err(ConvertError::MissingTxInfo),
        Some(info) => {
            if item.payload@.len() > MAX_PAYLOAD {
                Err(ConvertError::PayloadTooLarge)
            } else if info.power < MIN_POWER || info.power > MAX_POWER {
                Err(ConvertError::PowerOutOfRange)
            } else {
                match radio_modulation(info.modulation) {
                    Err(e) => Err(e),
                    Ok(radio) => match scheduled_tick(info.timing, info.context@) {
                        Err(e) => Err(e),
                        Ok(count_us) => Ok(
                            PacketView {
                                downlink_id,
                                count_us,
                                freq_hz: info.frequency,
                                bandwidth: radio.1,
                                modulation: radio.0,
                                datarate: radio.2,
                                rf_power: info.power as i16,
                                rf_chain: target_chain(info.rf_chain),
                                payload: item.payload@,
                            },
                        ),
                    },
                }
            }
        },
    }
}

/// The packet with the antenna's gain taken off its power, so that what is
/// radiated is what was asked for.
pub open spec fn compensated(packet: PacketView, antenna_gain: i8) -> PacketView {
    PacketView { rf_power: (packet.rf_power - antenna_gain) as i16, ..packet }
}

/// The packet that is offered to the queue for a candidate.
pub open spec fn prepared(item: Candidate, downlink_id: u32, antenna_gain: i8) -> Result<
    PacketView,
    ConvertError,
> {
    match converted(item, downlink_id) {
        Ok(packet) => Ok(compensated(packet, antenna_gain)),
        Err(e) => Err(e),
    }
}

/// Whether radio chain `chain` is configured and transmits on `freq_hz`.
pub open spec fn supports(radios: Seq<FrequencyRange>, chain: u8, freq_hz: u32) -> bool {
    chain < radios.len() && radios[chain as int].tx_freq_min <= freq_hz
        <= radios[chain as int].tx_freq_max
}

/// What a request is held against: the radio chains, the antenna, the tick
/// at which it is handled and the queue as it then is.
pub struct Setting {
    pub radios: Seq<FrequencyRange>,
    pub antenna_gain: i8,
    pub now: u32,
    pub queue: QueueModel,
}

impl Setting {
    /// The status that a packet earns: `TxFreq` where its chain does not
    /// transmit on its frequency, else the queue's verdict.
    pub open spec fn status(self, packet: PacketView) -> StatusCode {
        if supports(self.radios, packet.rf_chain, packet.freq_hz) {
            self.queue.verdict(self.now, packet.count_us)
        } else {
            StatusCode::TxFreq
        }
    }

    /// The queue after the packet was dealt with: only a packet whose
    /// frequency is supported reaches it.
    pub open spec fn queue_after(self, packet: PacketView) -> QueueModel {
        if supports(self.radios, packet.rf_chain, packet.freq_hz) {
            self.queue.offered(self.now, packet)
        } else {
            self.queue
        }
    }

    /// The candidate can be converted and is then turned down.
    pub open spec fn turns_down(self, item: Candidate, downlink_id: u32) -> bool {
        match prepared(item, downlink_id, self.antenna_gain) {
            Ok(packet) => self.status(packet) != StatusCode::Accepted,
            Err(_) => false,
        }
    }

    /// Index of the first candidate from `from` on that is not turned down,
    /// because it is accepted or cannot be converted; the number of
    /// candidates where there is none.
    pub open spec fn stop_from(self, request: DownlinkRequest, from: int) -> int
        decreases request.items@.len() - from,
    {
        if from < 0 || from >= request.items@.len() {
            request.items@.len() as int
        } else if self.turns_down(request.items@[from], request.downlink_id) {
            self.stop_from(request, from + 1)
        } else {
            from
        }
    }

    /// Index of the candidate at which the handling of the request ends.
    pub open spec fn stop(self, request: DownlinkRequest) -> int {
        self.stop_from(request, 0)
    }

    /// The request fails as a whole: the candidate at which it ends cannot
    /// be converted.
    pub open spec fn aborts(self, request: DownlinkRequest) -> bool {
        self.stop(request) < request.items@.len() && prepared(
            request.items@[self.stop(request)],
            request.downlink_id,
            self.antenna_gain,
        ) is Err
    }

    /// The status of candidate `i` in the acknowledgment of a request that
    /// does not fail: its own up to the candidate that was accepted,
    /// `Ignored` after that one.
    pub open spec fn status_at(self, request: DownlinkRequest, i: int) -> StatusCode {
        if i <= self.stop(request) {
            self.status(
                prepared(request.items@[i], request.downlink_id, self.antenna_gain)->Ok_0,
            )
        } else {
            StatusCode::Ignored
        }
    }

    /// The status that counts for the request as a whole: `Accepted` where a
    /// candidate was accepted; else the status of the last candidate, whether
    /// it fell to its frequency or to the queue; `Ignored` only for a request
    /// without candidates.
    pub open spec fn overall(self, request: DownlinkRequest) -> StatusCode {
        if self.stop(request) < request.items@.len() {
            StatusCode::Accepted
        } else if request.items@.len() == 0 {
            StatusCode::Ignored
        } else {
            self.status_at(request, request.items@.len() - 1)
        }
    }

    /// The queue after a request that does not fail.
    pub open spec fn queue_after_request(self, request: DownlinkRequest) -> QueueModel {
        if self.stop(request) < request.items@.len() {
            self.queue.offered(
                self.now,
                prepared(
                    request.items@[self.stop(request)],
                    request.downlink_id,
                    self.antenna_gain,
                )->Ok_0,
            )
        } else {
            self.queue
        }
    }
}

/// The radio chain that a candidate is transmitted on.
pub fn transmit_chain(rf_chain: Option<u8>) -> (chain: u8)
    ensures
        chain == target_chain(rf_chain),
{
    match rf_chain {
        Some(chain) => chain,
        None => TX_RF_CHAIN,
    }
}

/// The number of whole ticks in a span, where it has one.
pub fn delay_ticks(span: Span) -> (r: Option<u32>)
    ensures
        r == span_ticks(span),
{
    if span.seconds < 0 || span.seconds > 4_294 || span.nanos < 0 || span.nanos
        >= NANOS_PER_SECOND {
        return None;
    }
    let ticks: u64 = span.seconds as u64 * TICKS_PER_SECOND + (span.nanos / NANOS_PER_TICK) as u64;
    if ticks > u32::MAX as u64 {
        None
    } else {
        Some(ticks as u32)
    }
}

/// The tick that a context names.
pub fn read_context(context: &[u8]) -> (r: Option<u32>)
    ensures
        r == (if context@.len() == CONTEXT_LEN {
            Some(context_tick(context@))
        } else {
            None
        }),
{
    if context.len() != CONTEXT_LEN {
        return None;
    }
    let high: u32 = (context[0] as u32 * 256 + context[1] as u32) * 256 + context[2] as u32;
    Some(high * 256 + context[3] as u32)
}

/// What the radio is given for the modulation that a request asks for.
pub fn convert_modulation(modulation: Option<PhyModulation>) -> (r: Result<
    (Modulation, u32, u32),
    ConvertError,
>)
    ensures
        r == radio_modulation(modulation),
{
    match modulation {
        None => Err(ConvertError::MissingModulation),
        Some(PhyModulation::LrFhss) => Err(ConvertError::UnsupportedModulation),
        Some(PhyModulation::LoRa { bandwidth, spreading_factor }) => Ok(
            (Modulation::LoRa, bandwidth, spreading_factor),
        ),
        Some(PhyModulation::Fsk { datarate }) => Ok((Modulation::Fsk, 0, datarate)),
    }
}

/// The tick at which a candidate with this timing and context is to be
/// transmitted.
pub fn schedule(timing: Option<Timing>, context: &[u8]) -> (r: Result<u32, ConvertError>)
    ensures
        r == scheduled_tick(timing, context@),
{
    match timing {
        None => Err(ConvertError::MissingTiming),
        Some(Timing::Immediately) => Err(ConvertError::UnsupportedTiming),
        Some(Timing::GpsEpoch) => Err(ConvertError::UnsupportedTiming),
        Some(Timing::Delay(None)) => Err(ConvertError::MissingDelay),
        Some(Timing::Delay(Some(span))) => match delay_ticks(span) {
            None => Err(ConvertError::DelayOutOfRange),
            Some(delay) => match read_context(context) {
                Some(tick) => Ok(advance(tick, delay)),
                None => Err(ConvertError::MalformedContext),
            },
        },
    }
}

impl Candidate {
    /// Turns the candidate into the packet that is offered to the queue: the
    /// request's description in the radio's terms, with the antenna's gain
    /// taken off the power.
    pub fn prepare(&self, downlink_id: u32, antenna_gain: i8) -> (r: Result<
        ScheduledPacket,
        ConvertError,
    >)
        ensures
            match r {
                Ok(packet) => prepared(*self, downlink_id, antenna_gain) == Ok::<
                    PacketView,
                    ConvertError,
                >(packet@),
                Err(e) => prepared(*self, downlink_id, antenna_gain) == Err::<
                    PacketView,
                    ConvertError,
                >(e),
            },
    {
        let info = match &self.tx_info {
            None => {
                return Err(ConvertError::MissingTxInfo);
            },
            Some(info) => info,
        };
        if self.payload.len() > MAX_PAYLOAD {
            return Err(ConvertError::PayloadTooLarge);
        }
        if info.power < MIN_POWER || info.power > MAX_POWER {
            return Err(ConvertError::PowerOutOfRange);
        }
        let radio = match convert_modulation(info.modulation) {
            Ok(radio) => radio,
            Err(e) => {
                return Err(e);
            },
        };
        let count_us = match schedule(info.timing, info.context.as_slice()) {
            Ok(count_us) => count_us,
            Err(e) => {
                return Err(e);
            },
        };
        Ok(
            ScheduledPacket {
                downlink_id,
                count_us,
                freq_hz: info.frequency,
                bandwidth: radio.1,
                modulation: radio.0,
                datarate: radio.2,
                rf_power: (info.power - antenna_gain as i32) as i16,
                rf_chain: transmit_chain(info.rf_chain),
                payload: copy_bytes(self.payload.as_slice()),
            },
        )
    }
}

/// Whether radio chain `chain` is configured and transmits on `freq_hz`.
pub fn frequency_supported(radios: &[FrequencyRange], chain: u8, freq_hz: u32) -> (r: bool)
    ensures
        r == supports(radios@, chain, freq_hz),
{
    if (chain as usize) < radios.len() {
        let range = radios[chain as usize];
        range.tx_freq_min <= freq_hz && freq_hz <= range.tx_freq_max
    } else {
        false
    }
}

/// The setting in which `queue` is offered packets at `now`.
pub open spec fn setting(
    radios: &[FrequencyRange],
    antenna_gain: i8,
    now: u32,
    queue: QueueModel,
) -> Setting {
    Setting { radios: radios@, antenna_gain, now, queue }
}

/// Deals with one candidate at tick `now`. A candidate that cannot be
/// converted gives the error and leaves the queue alone. One whose chain
/// does not transmit on its frequency gets `TxFreq`, and the queue is not
/// asked. Any other is offered to the queue and gets the queue's verdict.
pub fn offer_candidate(
    queue: &mut TimeQueue,
    now: u32,
    radios: &[FrequencyRange],
    antenna_gain: i8,
    downlink_id: u32,
    item: &Candidate,
) -> (r: Result<StatusCode, ConvertError>)
    ensures
        old(queue)@.wf() ==> final(queue)@.wf(),
        final(queue)@.entries.len() == old(queue)@.entries.len() + (if r == Ok::<
            StatusCode,
            ConvertError,
        >(StatusCode::Accepted) {
            1int
        } else {
            0int
        }),
        match prepared(*item, downlink_id, antenna_gain) {
            Err(e) => r == Err::<StatusCode, ConvertError>(e) && final(queue)@ == old(queue)@,
            Ok(packet) => {
                &&& r == Ok::<StatusCode, ConvertError>(
                    setting(radios, antenna_gain, now, old(queue)@).status(packet),
                )
                &&& final(queue)@ == setting(radios, antenna_gain, now, old(queue)@).queue_after(
                    packet,
                )
                &&& !supports(radios@, packet.rf_chain, packet.freq_hz) ==> r == Ok::<
                    StatusCode,
                    ConvertError,
                >(StatusCode::TxFreq) && final(queue)@ == old(queue)@
            },
        },
{
    let packet = match item.prepare(downlink_id, antenna_gain) {
        Ok(packet) => packet,
        Err(e) => {
            return Err(e);
        },
    };
    if !frequency_supported(radios, packet.rf_chain, packet.freq_hz) {
        return Ok(StatusCode::TxFreq);
    }
    match queue.enqueue(now, packet) {
        Ok(_) => Ok(StatusCode::Accepted),
        Err(code) => Ok(code),
    }
}

fn all_ignored(n: usize) -> (items: Vec<StatusCode>)
    ensures
        items@.len() == n,
        forall|j: int| 0 <= j < n ==> items@[j] == StatusCode::Ignored,
{
    let mut items: Vec<StatusCode> = Vec::new();
    while items.len() < n
        invariant
            items@.len() <= n,
            forall|j: int| 0 <= j < items@.len() ==> items@[j] == StatusCode::Ignored,
        decreases n - items@.len(),
    {
        items.push(StatusCode::default());
    }
    items
}

/// Handles a downlink request at tick `now`.
///
/// The candidates are taken in their order. Each is converted, held against
/// its radio chain's frequencies and, where those fit, offered to the queue.
/// The first one that the queue accepts ends the request: the candidates
/// after it are not looked at and read `Ignored`. A candidate that cannot be
/// converted fails the request as a whole: there is then no acknowledgment,
/// and the queue is as it was, since nothing had been accepted before.
///
/// The status that counts for the request is `Accepted` where a candidate
/// was accepted; else the status of the last candidate; and `Ignored` only
/// where the request holds no candidate.
pub fn handle_downlink(
    radios: &[FrequencyRange],
    gateway_id: &[u8],
    queue: &mut TimeQueue,
    request: &DownlinkRequest,
    antenna_gain: i8,
    now: u32,
) -> (r: Result<DownlinkOutcome, ConvertError>)
    ensures
        old(queue)@.wf() ==> final(queue)@.wf(),
        ({
            let s = setting(radios, antenna_gain, now, old(queue)@);
            match r {
                Err(e) => {
                    &&& s.aborts(*request)
                    &&& prepared(
                        request.items@[s.stop(*request)],
                        request.downlink_id,
                        antenna_gain,
                    ) == Err::<PacketView, ConvertError>(e)
                    &&& final(queue)@ == old(queue)@
                },
                Ok(out) => {
                    &&& !s.aborts(*request)
                    &&& out.ack.gateway_id@ == hex_string(gateway_id@)
                    &&& out.ack.downlink_id == request.downlink_id
                    &&& out.ack.items@.len() == request.items@.len()
                    &&& forall|i: int|
                        0 <= i < request.items@.len() ==> #[trigger] out.ack.items@[i]
                            == s.status_at(*request, i)
                    &&& out.status == s.overall(*request)
                    &&& final(queue)@ == s.queue_after_request(*request)
                },
            }
        }),
        r matches Ok(out) ==> final(queue)@.entries.len() == old(queue)@.entries.len() + (
        if out.status == StatusCode::Accepted {
            1int
        } else {
            0int
        }),
        r matches Ok(out) ==> forall|i: int, j: int|
            0 <= i < j < out.ack.items@.len() && #[trigger] out.ack.items@[i]
                == StatusCode::Accepted ==> #[trigger] out.ack.items@[j] == StatusCode::Ignored,
        r matches Ok(out) ==> forall|i: int|
            0 <= i < request.items@.len() && out.ack.items@[i] != StatusCode::Ignored ==> {
                let packet = prepared(
                    #[trigger] request.items@[i],
                    request.downlink_id,
                    antenna_gain,
                );
                packet is Ok && (!supports(radios@, packet->Ok_0.rf_chain, packet->Ok_0.freq_hz)
                    ==> out.ack.items@[i] == StatusCode::TxFreq)
            },
{
    let n = request.items.len();
    let mut items = all_ignored(n);
    let mut status = StatusCode::Ignored;
    let ghost s = setting(radios, antenna_gain, now, queue@);
    let mut i: usize = 0;
    while i < n
        invariant
            i <= n,
            n == request.items@.len(),
            items@.len() == n,
            queue@ == s.queue,
            s == setting(radios, antenna_gain, now, old(queue)@),
            s.stop(*request) == s.stop_from(*request, i as int),
            status == (if i == 0 {
                StatusCode::Ignored
            } else {
                s.status(
                    prepared(request.items@[i - 1], request.downlink_id, antenna_gain)->Ok_0,
                )
            }),
            status != StatusCode::Accepted,
            forall|j: int|
                0 <= j < i ==> s.turns_down(#[trigger] request.items@[j], request.downlink_id),
            forall|j: int|
                0 <= j < i ==> #[trigger] items@[j] == s.status(
                    prepared(request.items@[j], request.downlink_id, antenna_gain)->Ok_0,
                ),
            forall|j: int| i <= j < n ==> #[trigger] items@[j] == StatusCode::Ignored,
        decreases n - i,
    {
        let code = match offer_candidate(
            queue,
            now,
            radios,
            antenna_gain,
            request.downlink_id,
            &request.items[i],
        ) {
            Ok(code) => code,
            Err(e) => {
                return Err(e);
            },
        };
        items.set(i, code);
        if code == StatusCode::Accepted {
            let ack = DownlinkAck {
                gateway_id: gateway_id_text(gateway_id),
                downlink_id: request.downlink_id,
                items,
            };
            return Ok(DownlinkOutcome { ack, status: StatusCode::Accepted });
        }
        status = code;
        i += 1;
    }
    let ack = DownlinkAck {
        gateway_id: gateway_id_text(gateway_id),
        downlink_id: request.downlink_id,
        items,
    };
    Ok(DownlinkOutcome { ack, status })
}

} // verus!
