//! The generic timer: tick and nanosecond conversion and the one-shot
//! deadline policy, on a plain copy of the timer's registers.

use vstd::arithmetic::div_mod::lemma_fundamental_div_mod;
use vstd::prelude::*;

verus! {

/// Nanoseconds in one second.
pub const NANOS_PER_SEC: u64 = 1_000_000_000;

/// Value of the control register that enables the timer with its interrupt
/// unmasked.
pub const TIMER_ENABLE: u32 = 1;

/// Nanoseconds that `ticks` ticks last at `frequency` ticks per second,
/// rounded down.
pub open spec fn nanos_of_ticks(ticks: int, frequency: int) -> int {
    ticks * (NANOS_PER_SEC as int) / frequency
}

/// Ticks that pass in `nanos` nanoseconds at `frequency` ticks per second,
/// rounded down.
pub open spec fn ticks_of_nanos(nanos: int, frequency: int) -> int {
    nanos * frequency / (NANOS_PER_SEC as int)
}

/// The frequency register holds 32 bits; the arithmetic works on 64.
pub fn timer_frequency(raw: u32) -> (frequency: u64)
    ensures
        frequency == raw,
{
    raw as u64
}

/// The count that a low and a high register word stand for together.
pub open spec fn count_of_words(low: u32, high: u32) -> int {
    high * 0x1_0000_0000 + low
}

/// The low register word of a 64-bit value.
pub open spec fn low_word(value: u64) -> u32 {
    (value % 0x1_0000_0000) as u32
}

/// The high register word of a 64-bit value.
pub open spec fn high_word(value: u64) -> u32 {
    (value / 0x1_0000_0000) as u32
}

/// The 64-bit count that the two words of the counter register stand for.
pub fn timer_counter(low: u32, high: u32) -> (count: u64)
    ensures
        count == count_of_words(low, high),
{
    let count: u64 = ((high as u64) << 32) | (low as u64);
    assert(((high as u64) << 32) | (low as u64) == (high as u64) * 0x1_0000_0000 + (low as u64))
        by (bit_vector);
    count
}

/// The low and the high word in which a compare value is written to its
/// register.
pub fn compare_words(value: u64) -> (words: (u32, u32))
    ensures
        words.0 == low_word(value),
        words.1 == high_word(value),
{
    let low: u32 = (value & 0xffff_ffff) as u32;
    let high: u32 = (value >> 32) as u32;
    assert(value & 0xffff_ffff == value % 0x1_0000_0000) by (bit_vector);
    assert(value >> 32 == value / 0x1_0000_0000) by (bit_vector);
    (low, high)
}

/// Splitting a value into its two words and joining them gives the value
/// back, and joining two words and splitting the count gives the words back.
pub proof fn lemma_words_round_trip(value: u64, low: u32, high: u32)
    ensures
        count_of_words(low_word(value), high_word(value)) == value,
        0 <= count_of_words(low, high) <= u64::MAX,
        low_word(count_of_words(low, high) as u64) == low,
        high_word(count_of_words(low, high) as u64) == high,
{
}

/// `ticks` in nanoseconds at `frequency`, or `None` where the frequency is
/// zero or the result does not fit in 64 bits. The product is formed in 128
/// bits, so it never wraps.
pub fn checked_ticks_to_nanos(ticks: u64, frequency: u64) -> (nanos: Option<u64>)
    ensures
        nanos is Some <==> frequency != 0 && nanos_of_ticks(ticks as int, frequency as int)
            <= u64::MAX,
        nanos is Some ==> nanos->0 == nanos_of_ticks(ticks as int, frequency as int),
{
    if frequency == 0 {
        return None;
    }
    assert((ticks as int) * (NANOS_PER_SEC as int) <= 0xffff_ffff_ffff_ffff * 1_000_000_000)
        by (nonlinear_arith)
        requires
            0 <= ticks <= 0xffff_ffff_ffff_ffff,
            NANOS_PER_SEC == 1_000_000_000,
    ;
    let product: u128 = (ticks as u128) * (NANOS_PER_SEC as u128);
    let quotient: u128 = product / (frequency as u128);
    if quotient > u64::MAX as u128 {
        None
    } else {
        Some(quotient as u64)
    }
}

/// `nanos` in ticks at `frequency`, or `None` where the result does not fit in
/// 64 bits. The product is formed in 128 bits, so it never wraps.
pub fn checked_nanos_to_ticks(nanos: u64, frequency: u64) -> (ticks: Option<u64>)
    ensures
        ticks is Some <==> ticks_of_nanos(nanos as int, frequency as int) <= u64::MAX,
        ticks is Some ==> ticks->0 == ticks_of_nanos(nanos as int, frequency as int),
{
    assert((nanos as int) * (frequency as int) <= 0xffff_ffff_ffff_ffff * 0xffff_ffff_ffff_ffff)
        by (nonlinear_arith)
        requires
            0 <= nanos <= 0xffff_ffff_ffff_ffff,
            0 <= frequency <= 0xffff_ffff_ffff_ffff,
    ;
    let product: u128 = (nanos as u128) * (frequency as u128);
    let quotient: u128 = product / (NANOS_PER_SEC as u128);
    if quotient > u64::MAX as u128 {
        None
    } else {
        Some(quotient as u64)
    }
}

/// A copy of one core's timer registers. The counter and the frequency are
/// read from the hardware; the compare value and the control word are what is
/// to be written back.
#[derive(Clone, Copy, Debug, PartialEq, Eq, Structural)]
pub struct GenericTimer {
    /// Ticks per second.
    pub frequency: u64,
    /// The free-running count.
    pub counter: u64,
    /// The count at which the timer fires.
    pub compare: u64,
    /// The control word.
    pub control: u32,
}

impl GenericTimer {
    /// The present time in nanoseconds, where it can be computed at all.
    pub open spec fn now_nanos(&self) -> int {
        nanos_of_ticks(self.counter as int, self.frequency as int)
    }

    /// The compare value that arms the timer for `deadline_ns`: the present
    /// count plus the ticks left until the deadline, or the present count
    /// where the deadline is now or has passed.
    pub open spec fn oneshot_compare(&self, deadline_ns: u64) -> int {
        if deadline_ns > self.now_nanos() {
            self.counter + ticks_of_nanos(deadline_ns - self.now_nanos(), self.frequency as int)
        } else {
            self.counter as int
        }
    }

    /// The deadline can be armed: the frequency is not zero, and the present
    /// time and the compare value fit in 64 bits.
    pub open spec fn can_arm(&self, deadline_ns: u64) -> bool {
        &&& self.frequency != 0
        &&& self.now_nanos() <= u64::MAX
        &&& self.oneshot_compare(deadline_ns) <= u64::MAX
    }

    /// A timer that was just read: nothing is armed and the timer is off.
    pub fn new(frequency: u64, counter: u64) -> (timer: Self)
        ensures
            timer == (GenericTimer { frequency, counter, compare: 0, control: 0 }),
    {
        GenericTimer { frequency, counter, compare: 0, control: 0 }
    }

    /// The present count.
    pub fn current_ticks(&self) -> (ticks: u64)
        ensures
            ticks == self.counter,
    {
        self.counter
    }

    /// `ticks` in nanoseconds, rounded down.
    pub fn ticks_to_nanos(&self, ticks: u64) -> (nanos: u64)
        requires
            self.frequency != 0,
            nanos_of_ticks(ticks as int, self.frequency as int) <= u64::MAX,
        ensures
            nanos == nanos_of_ticks(ticks as int, self.frequency as int),
    {
        match checked_ticks_to_nanos(ticks, self.frequency) {
            Some(nanos) => nanos,
            None => 0,
        }
    }

    /// `nanos` in ticks, rounded down.
    pub fn nanos_to_ticks(&self, nanos: u64) -> (ticks: u64)
        requires
            ticks_of_nanos(nanos as int, self.frequency as int) <= u64::MAX,
        ensures
            ticks == ticks_of_nanos(nanos as int, self.frequency as int),
    {
        match checked_nanos_to_ticks(nanos, self.frequency) {
            Some(ticks) => ticks,
            None => 0,
        }
    }

    /// This clock counts from boot: it has no offset to wall-clock time.
    pub fn epochoffset_nanos(&self) -> (offset: u64)
        ensures
            offset == 0,
    {
        0
    }

    /// Whether `set_oneshot_timer` may be called with this deadline.
    pub fn can_set_oneshot_timer(&self, deadline_ns: u64) -> (ok: bool)
        ensures
            ok == self.can_arm(deadline_ns),
    {
        match checked_ticks_to_nanos(self.counter, self.frequency) {
            None => false,
            Some(current_ns) => {
                if deadline_ns > current_ns {
                    match checked_nanos_to_ticks(deadline_ns - current_ns, self.frequency) {
                        None => false,
                        Some(ticks) => ticks <= u64::MAX - self.counter,
                    }
                } else {
                    true
                }
            },
        }
    }

    /// Arms the timer for the deadline `deadline_ns`, given in nanoseconds
    /// since boot, and enables it. A deadline that is not in the future fires
    /// at once: the compare value is the present count. Whatever was armed
    /// before is overwritten.
    pub fn set_oneshot_timer(&mut self, deadline_ns: u64)
        requires
            old(self).can_arm(deadline_ns),
        ensures
            final(self).frequency == old(self).frequency,
            final(self).counter == old(self).counter,
            final(self).control == TIMER_ENABLE,
            final(self).compare == old(self).oneshot_compare(deadline_ns),
            deadline_ns <= old(self).now_nanos() ==> final(self).compare == old(self).counter,
            deadline_ns > old(self).now_nanos() ==> final(self).compare == old(self).counter
                + ticks_of_nanos(
                deadline_ns - old(self).now_nanos(),
                old(self).frequency as int,
            ),
    {
        let current_ns: u64 = self.ticks_to_nanos(self.current_ticks());
        if deadline_ns > current_ns {
            let ticks: u64 = self.nanos_to_ticks(deadline_ns - current_ns);
            self.compare = self.current_ticks() + ticks;
            self.control = TIMER_ENABLE;
        } else {
            self.compare = self.current_ticks();
            self.control = TIMER_ENABLE;
        }
    }
}

/// Turns the timer interrupt on: arms the timer at the present count, so that
/// it fires at once, and enables it. The interrupt number plays no part.
pub fn enable_irqs(timer: &mut GenericTimer, _irq_num: usize)
    ensures
        final(timer).frequency == old(timer).frequency,
        final(timer).counter == old(timer).counter,
        final(timer).compare == old(timer).counter,
        final(timer).control == TIMER_ENABLE,
{
    timer.compare = timer.counter;
    timer.control = TIMER_ENABLE;
}

/// Ticks to nanoseconds and back loses exactly the remainder of the first
/// division, counted in whole ticks and rounded up. So the round trip never
/// gains a tick.
pub proof fn lemma_round_trip_exact(ticks: int, frequency: int)
    requires
        0 <= ticks,
        0 < frequency,
    ensures
        ticks_of_nanos(nanos_of_ticks(ticks, frequency), frequency) == ticks - ((ticks
            * 1_000_000_000) % frequency + 999_999_999) / 1_000_000_000,
        ticks_of_nanos(nanos_of_ticks(ticks, frequency), frequency) <= ticks,
{
    let scaled = ticks * 1_000_000_000;
    let nanos = scaled / frequency;
    let rest = scaled % frequency;
    lemma_fundamental_div_mod(scaled, frequency);
    let back = nanos * frequency;
    assert(back == frequency * nanos) by (nonlinear_arith)
        requires
            back == nanos * frequency,
    ;
    assert(back == scaled - rest);
    assert(0 <= rest < frequency);
    assert(nanos == nanos_of_ticks(ticks, frequency));
    assert(ticks_of_nanos(nanos, frequency) == back / 1_000_000_000);
}

/// Ticks to nanoseconds and back gives the same count or one less, wherever
/// the remainder of the first division is at most one tick's worth. That is
/// so at every frequency up to one tick per nanosecond.
pub proof fn lemma_round_trip_within_one(ticks: int, frequency: int)
    requires
        0 <= ticks,
        0 < frequency,
        (ticks * 1_000_000_000) % frequency <= 1_000_000_000,
    ensures
        ticks - 1 <= ticks_of_nanos(nanos_of_ticks(ticks, frequency), frequency) <= ticks,
{
    lemma_round_trip_exact(ticks, frequency);
}

/// At a frequency of at most one tick per nanosecond the round trip through
/// nanoseconds loses at most one tick.
pub proof fn lemma_round_trip_up_to_one_ghz(ticks: int, frequency: int)
    requires
        0 <= ticks,
        0 < frequency <= 1_000_000_000,
    ensures
        ticks - 1 <= ticks_of_nanos(nanos_of_ticks(ticks, frequency), frequency) <= ticks,
{
    let scaled = ticks * 1_000_000_000;
    lemma_fundamental_div_mod(scaled, frequency);
    assert(0 <= scaled % frequency < frequency);
    lemma_round_trip_within_one(ticks, frequency);
}

/// Arming twice leaves what the second call armed: the registers after the
/// call do not depend on the compare value and the control word before it.
pub proof fn lemma_arming_overwrites(first: GenericTimer, second: GenericTimer, deadline_ns: u64)
    requires
        first.frequency == second.frequency,
        first.counter == second.counter,
    ensures
        first.oneshot_compare(deadline_ns) == second.oneshot_compare(deadline_ns),
        first.can_arm(deadline_ns) == second.can_arm(deadline_ns),
{
}

} // verus!
