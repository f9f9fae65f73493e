use vstd::prelude::*;

verus! {

/// Number of values of the concentrator's tick counter.
pub const TICK_MODULUS: u64 = 0x1_0000_0000;

/// Half of the counter's range: the furthest one tick can lie from another.
pub const TICK_HALF: u64 = 0x8000_0000;

/// Signed distance from `from` to `to` on the wrapping counter: positive when
/// `to` lies ahead of `from`, negative when it lies behind. Of the two ways
/// round the counter the shorter one counts; the point opposite `from` counts
/// as behind it.
pub open spec fn tick_delta(from: u32, to: u32) -> int {
    let d = to as int - from as int;
    if d >= TICK_HALF as int {
        d - TICK_MODULUS as int
    } else if d < -(TICK_HALF as int) {
        d + TICK_MODULUS as int
    } else {
        d
    }
}

/// A tick is due once it is not ahead of `now`.
pub open spec fn is_due(now: u32, tick: u32) -> bool {
    tick_delta(now, tick) <= 0
}

/// The tick that lies `delta` ticks after `from`, wrapping round the counter.
pub open spec fn tick_add(from: u32, delta: u32) -> u32 {
    ((from as int + delta as int) % (TICK_MODULUS as int)) as u32
}

/// Signed distance from `from` to `to`.
pub fn ticks_between(from: u32, to: u32) -> (d: i64)
    ensures
        d == tick_delta(from, to),
        -(TICK_HALF as int) <= d < TICK_HALF as int,
{
    let d: i64 = to as i64 - from as i64;
    if d >= TICK_HALF as i64 {
        d - TICK_MODULUS as i64
    } else if d < -(TICK_HALF as i64) {
        d + TICK_MODULUS as i64
    } else {
        d
    }
}

/// Whether a packet scheduled at `tick` is due at `now`.
pub fn due(now: u32, tick: u32) -> (r: bool)
    ensures
        r == is_due(now, tick),
{
    ticks_between(now, tick) <= 0
}

/// The tick `delta` ticks after `from`.
pub fn advance(from: u32, delta: u32) -> (r: u32)
    ensures
        r == tick_add(from, delta),
        delta < TICK_HALF ==> tick_delta(from, r) == delta,
{
    let sum: u64 = from as u64 + delta as u64;
    if sum >= TICK_MODULUS {
        (sum - TICK_MODULUS) as u32
    } else {
        sum as u32
    }
}

} // verus!
