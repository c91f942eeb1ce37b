//! Time units

use vstd::prelude::*;

verus! {

/// Microseconds
#[derive(Clone, Copy, Debug, PartialEq, Eq, Structural)]
pub struct Microseconds(pub u32);

/// Milliseconds
#[derive(Clone, Copy, Debug, PartialEq, Eq, Structural)]
pub struct Milliseconds(pub u32);

/// Seconds
#[derive(Clone, Copy, Debug, PartialEq, Eq, Structural)]
pub struct Seconds(pub u32);

/// Minutes
#[derive(Clone, Copy, Debug, PartialEq, Eq, Structural)]
pub struct Minutes(pub u32);

/// Hours
#[derive(Clone, Copy, Debug, PartialEq, Eq, Structural)]
pub struct Hours(pub u32);

/// Bits per second
#[derive(Clone, Copy, Debug, PartialEq, Eq, Structural)]
pub struct Bps(pub u32);

/// Hertz
#[derive(Clone, Copy, Debug, PartialEq, Eq, Structural)]
pub struct Hertz(pub u32);

/// KiloHertz
#[derive(Clone, Copy, Debug, PartialEq, Eq, Structural)]
pub struct KiloHertz(pub u32);

/// MegaHertz
#[derive(Clone, Copy, Debug, PartialEq, Eq, Structural)]
pub struct MegaHertz(pub u32);

/// Extension trait that adds convenience methods to the `u32` type
pub trait U32Ext {
    /// Wrap in `Bps`
    fn bps(self) -> Bps;

    /// Wrap in `Hertz`
    fn hz(self) -> Hertz;

    /// Wrap in `KiloHertz`
    fn khz(self) -> KiloHertz;

    /// Wrap in `MegaHertz`
    fn mhz(self) -> MegaHertz;

    /// Wrap in `Seconds`
    fn s(self) -> Seconds;

    /// Wrap in `Milliseconds`
    fn ms(self) -> Milliseconds;

    /// Wrap in `Microseconds`
    fn us(self) -> Microseconds;
}

impl U32Ext for u32 {
    fn bps(self) -> (out: Bps)
        ensures
            out == Bps(self),
    {
        Bps(self)
    }

    fn hz(self) -> (out: Hertz)
        ensures
            out == Hertz(self),
    {
        Hertz(self)
    }

    fn khz(self) -> (out: KiloHertz)
        ensures
            out == KiloHertz(self),
    {
        KiloHertz(self)
    }

    fn mhz(self) -> (out: MegaHertz)
        ensures
            out == MegaHertz(self),
    {
        MegaHertz(self)
    }

    fn s(self) -> (out: Seconds)
        ensures
            out == Seconds(self),
    {
        Seconds(self)
    }

    fn ms(self) -> (out: Milliseconds)
        ensures
            out == Milliseconds(self),
    {
        Milliseconds(self)
    }

    fn us(self) -> (out: Microseconds)
        ensures
            out == Microseconds(self),
    {
        Microseconds(self)
    }
}

/// A conversion into an equal or finer unit of the same dimension, by exact
/// integer scaling.
///
/// This is `Into` with a precondition: the scaled magnitude has to fit in
/// 32 bits, and it is for the caller to know that it does.
pub trait ExactInto<T>: Sized {
    /// Whether the scaled magnitude fits in 32 bits.
    spec fn fits(self) -> bool;

    /// The same quantity in the target unit.
    spec fn converted(self) -> T;

    /// Converts into the target unit.
    fn exact_into(self) -> (out: T)
        requires
            self.fits(),
        ensures
            out == self.converted(),
    ;
}

impl<T> ExactInto<T> for T {
    open spec fn fits(self) -> bool {
        true
    }

    open spec fn converted(self) -> T {
        self
    }

    fn exact_into(self) -> (out: T) {
        self
    }
}

impl ExactInto<Hertz> for KiloHertz {
    open spec fn fits(self) -> bool {
        self.0 * 1_000 <= u32::MAX
    }

    open spec fn converted(self) -> Hertz {
        Hertz((self.0 * 1_000) as u32)
    }

    fn exact_into(self) -> (out: Hertz) {
        Hertz(self.0 * 1_000)
    }
}

impl ExactInto<Hertz> for MegaHertz {
    open spec fn fits(self) -> bool {
        self.0 * 1_000_000 <= u32::MAX
    }

    open spec fn converted(self) -> Hertz {
        Hertz((self.0 * 1_000_000) as u32)
    }

    fn exact_into(self) -> (out: Hertz) {
        Hertz(self.0 * 1_000_000)
    }
}

impl ExactInto<KiloHertz> for MegaHertz {
    open spec fn fits(self) -> bool {
        self.0 * 1_000 <= u32::MAX
    }

    open spec fn converted(self) -> KiloHertz {
        KiloHertz((self.0 * 1_000) as u32)
    }

    fn exact_into(self) -> (out: KiloHertz) {
        KiloHertz(self.0 * 1_000)
    }
}

impl ExactInto<Microseconds> for Seconds {
    open spec fn fits(self) -> bool {
        self.0 * 1_000_000 <= u32::MAX
    }

    open spec fn converted(self) -> Microseconds {
        Microseconds((self.0 * 1_000_000) as u32)
    }

    fn exact_into(self) -> (out: Microseconds) {
        Microseconds(self.0 * 1_000_000)
    }
}

impl ExactInto<Milliseconds> for Seconds {
    open spec fn fits(self) -> bool {
        self.0 * 1_000 <= u32::MAX
    }

    open spec fn converted(self) -> Milliseconds {
        Milliseconds((self.0 * 1_000) as u32)
    }

    fn exact_into(self) -> (out: Milliseconds) {
        Milliseconds(self.0 * 1_000)
    }
}

impl ExactInto<Microseconds> for Milliseconds {
    open spec fn fits(self) -> bool {
        self.0 * 1_000 <= u32::MAX
    }

    open spec fn converted(self) -> Microseconds {
        Microseconds((self.0 * 1_000) as u32)
    }

    fn exact_into(self) -> (out: Microseconds) {
        Microseconds(self.0 * 1_000)
    }
}

impl ExactInto<Seconds> for Minutes {
    open spec fn fits(self) -> bool {
        self.0 * 60 <= u32::MAX
    }

    open spec fn converted(self) -> Seconds {
        Seconds((self.0 * 60) as u32)
    }

    fn exact_into(self) -> (out: Seconds) {
        Seconds(self.0 * 60)
    }
}

impl ExactInto<Seconds> for Hours {
    open spec fn fits(self) -> bool {
        self.0 * 3600 <= u32::MAX
    }

    open spec fn converted(self) -> Seconds {
        Seconds((self.0 * 3600) as u32)
    }

    fn exact_into(self) -> (out: Seconds) {
        Seconds(self.0 * 3600)
    }
}

impl ExactInto<Minutes> for Hours {
    open spec fn fits(self) -> bool {
        self.0 * 60 <= u32::MAX
    }

    open spec fn converted(self) -> Minutes {
        Minutes((self.0 * 60) as u32)
    }

    fn exact_into(self) -> (out: Minutes) {
        Minutes(self.0 * 60)
    }
}

/// A frequency in kilohertz is 1000 times as many hertz, and one in
/// megahertz 1 000 000 times as many hertz and 1000 times as many kilohertz,
/// wherever the product fits in 32 bits.
pub proof fn lemma_frequency_scaling(k: KiloHertz, m: MegaHertz)
    ensures
        <KiloHertz as ExactInto<Hertz>>::fits(k) ==> <KiloHertz as ExactInto<Hertz>>::converted(
            k,
        ).0 == k.0 * 1_000,
        <MegaHertz as ExactInto<Hertz>>::fits(m) ==> <MegaHertz as ExactInto<Hertz>>::converted(
            m,
        ).0 == m.0 * 1_000_000,
        <MegaHertz as ExactInto<KiloHertz>>::fits(m) ==> <MegaHertz as ExactInto<
            KiloHertz,
        >>::converted(m).0 == m.0 * 1_000,
{
}

/// A duration in seconds is 1000 times as many milliseconds and 1 000 000
/// times as many microseconds; one in milliseconds 1000 times as many
/// microseconds; one in minutes 60 times as many seconds; one in hours 60
/// times as many minutes and 3600 times as many seconds; each wherever the
/// product fits in 32 bits.
pub proof fn lemma_duration_scaling(ms: Milliseconds, s: Seconds, min: Minutes, h: Hours)
    ensures
        <Seconds as ExactInto<Milliseconds>>::fits(s) ==> <Seconds as ExactInto<
            Milliseconds,
        >>::converted(s).0 == s.0 * 1_000,
        <Seconds as ExactInto<Microseconds>>::fits(s) ==> <Seconds as ExactInto<
            Microseconds,
        >>::converted(s).0 == s.0 * 1_000_000,
        <Milliseconds as ExactInto<Microseconds>>::fits(ms) ==> <Milliseconds as ExactInto<
            Microseconds,
        >>::converted(ms).0 == ms.0 * 1_000,
        <Minutes as ExactInto<Seconds>>::fits(min) ==> <Minutes as ExactInto<Seconds>>::converted(
            min,
        ).0 == min.0 * 60,
        <Hours as ExactInto<Minutes>>::fits(h) ==> <Hours as ExactInto<Minutes>>::converted(h).0
            == h.0 * 60,
        <Hours as ExactInto<Seconds>>::fits(h) ==> <Hours as ExactInto<Seconds>>::converted(h).0
            == h.0 * 3600,
{
}

/// Converting hours to minutes and those to seconds gives what converting
/// hours to seconds gives; likewise seconds to microseconds by way of
/// milliseconds, and megahertz to hertz by way of kilohertz.
pub proof fn lemma_scaling_composes(h: Hours, s: Seconds, m: MegaHertz)
    ensures
        <Hours as ExactInto<Seconds>>::fits(h) ==> {
            let minutes = <Hours as ExactInto<Minutes>>::converted(h);
            &&& <Hours as ExactInto<Minutes>>::fits(h)
            &&& <Minutes as ExactInto<Seconds>>::fits(minutes)
            &&& <Minutes as ExactInto<Seconds>>::converted(minutes) == <Hours as ExactInto<
                Seconds,
            >>::converted(h)
        },
        <Seconds as ExactInto<Microseconds>>::fits(s) ==> {
            let millis = <Seconds as ExactInto<Milliseconds>>::converted(s);
            &&& <Seconds as ExactInto<Milliseconds>>::fits(s)
            &&& <Milliseconds as ExactInto<Microseconds>>::fits(millis)
            &&& <Milliseconds as ExactInto<Microseconds>>::converted(millis) == <Seconds as ExactInto<
                Microseconds,
            >>::converted(s)
        },
        <MegaHertz as ExactInto<Hertz>>::fits(m) ==> {
            let kilo = <MegaHertz as ExactInto<KiloHertz>>::converted(m);
            &&& <MegaHertz as ExactInto<KiloHertz>>::fits(m)
            &&& <KiloHertz as ExactInto<Hertz>>::fits(kilo)
            &&& <KiloHertz as ExactInto<Hertz>>::converted(kilo) == <MegaHertz as ExactInto<
                Hertz,
            >>::converted(m)
        },
{
}

/// The forward distance from the reading `from` to the reading `to` of a
/// counter that wraps at 2^32.
pub open spec fn cycles_between(from: u32, to: u32) -> u32 {
    ((to - from) % 0x1_0000_0000) as u32
}

/// A monotonic nondecreasing timer
///
/// It counts the cycles of the processor's free-running cycle counter. The
/// timer records the frequency of the counter; the readings of the counter
/// are handed to it.
#[derive(Clone, Copy, Debug)]
pub struct MonoTimer {
    frequency: Hertz,
}

impl View for MonoTimer {
    type V = Hertz;

    /// The frequency at which the counter runs.
    closed spec fn view(&self) -> Hertz {
        self.frequency
    }
}

impl MonoTimer {
    /// Creates a new `Monotonic` timer over a cycle counter that has been
    /// enabled and runs at the system clock frequency `sysclk`.
    pub fn new(sysclk: Hertz) -> (timer: Self)
        ensures
            timer@ == sysclk,
    {
        MonoTimer { frequency: sysclk }
    }

    /// Returns the frequency at which the monotonic timer is operating at
    pub fn frequency(&self) -> (frequency: Hertz)
        ensures
            frequency == self@,
    {
        self.frequency
    }

    /// Returns an `Instant` corresponding to "now", `cycle_count` being the
    /// reading of the cycle counter now.
    pub fn now(&self, cycle_count: u32) -> (instant: Instant)
        ensures
            instant@ == cycle_count,
    {
        Instant { now: cycle_count }
    }
}

/// A measurement of a monotonically nondecreasing clock
#[derive(Clone, Copy, Debug)]
pub struct Instant {
    now: u32,
}

impl View for Instant {
    type V = u32;

    /// The reading of the cycle counter when the instant was taken.
    closed spec fn view(&self) -> u32 {
        self.now
    }
}

impl Instant {
    /// The cycles from this instant to `till`.
    pub open spec fn spec_elapsed_till(&self, till: &Self) -> u32 {
        cycles_between(self@, till@)
    }

    /// The cycles from `since` to this instant.
    pub open spec fn spec_elapsed_since(&self, since: &Self) -> u32 {
        cycles_between(since@, self@)
    }

    /// Ticks elapsed since the `Instant` was created, `cycle_count` being
    /// the reading of the cycle counter now.
    pub fn elapsed(&self, cycle_count: u32) -> (cycles: u32)
        ensures
            cycles == cycles_between(self@, cycle_count),
    {
        cycle_count.wrapping_sub(self.now)
    }

    /// Ticks elapsed from this instant to `till`.
    #[verifier::when_used_as_spec(spec_elapsed_till)]
    pub fn elapsed_till(&self, till: &Self) -> (cycles: u32)
        ensures
            cycles == self.spec_elapsed_till(till),
    {
        till.now.wrapping_sub(self.now)
    }

    /// Ticks elapsed from `since` to this instant.
    #[verifier::when_used_as_spec(spec_elapsed_since)]
    pub fn elapsed_since(&self, since: &Self) -> (cycles: u32)
        ensures
            cycles == self.spec_elapsed_since(since),
    {
        self.now.wrapping_sub(since.now)
    }
}

/// The cycles from `a` to `b` are the cycles that `b` is after `a`: measured
/// from either instant they are the same.
pub proof fn lemma_elapsed_till_is_elapsed_since(a: Instant, b: Instant)
    ensures
        a.elapsed_till(&b) == b.elapsed_since(&a),
{
}

/// Where the counter had counted `count_a` cycles in all when `a` was taken
/// and `count_b` when `b` was taken, `b` after `a` and fewer than 2^32 cycles
/// later, the cycles elapsed from `a` to `b` are `count_b - count_a`, however
/// often the 32-bit counter wrapped before or between the two.
pub proof fn lemma_elapsed_is_cycle_difference(a: Instant, b: Instant, count_a: nat, count_b: nat)
    requires
        a@ == count_a % 0x1_0000_0000,
        b@ == count_b % 0x1_0000_0000,
        count_a <= count_b < count_a + 0x1_0000_0000,
    ensures
        a.elapsed_till(&b) == count_b - count_a,
        b.elapsed_since(&a) == count_b - count_a,
{
}

/// An instant is no cycle away from itself, and the cycles from `a` to `b`
/// and from `b` back to `a` make up a whole turn of the counter.
pub proof fn lemma_elapsed_round_trip(a: Instant, b: Instant)
    ensures
        a.elapsed_till(&a) == 0,
        a@ != b@ ==> a.elapsed_till(&b) + b.elapsed_till(&a) == 0x1_0000_0000,
{
}

} // verus!
