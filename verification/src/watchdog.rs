//! Independent watchdog

use vstd::prelude::*;
use vstd::arithmetic::power2::pow2;
use crate::time::{ExactInto, Microseconds};

verus! {

/// Key that opens the prescaler and reload registers for writing.
pub const KEY_UNLOCK: u16 = 0x5555;

/// Key that sets the downcounter back to the reload value.
pub const KEY_RELOAD: u16 = 0xAAAA;

/// Key that starts the watchdog.
pub const KEY_ENABLE: u16 = 0xCCCC;

/// Largest value of the 12-bit reload register.
pub const MAX_RELOAD: u16 = 0xFFF;

/// Shortest period in microseconds that the watchdog can time: one tick at
/// the smallest prescaler.
pub const MIN_PERIOD_US: u32 = 100;

/// Periods in microseconds from which the reload value is the largest one.
pub const FULL_RELOAD_PERIOD_US: u32 = 409_600;

/// Longest period in microseconds that the hardware can time: 4096 ticks at
/// a divider of 256.
pub const MAX_PERIOD_US: u32 = 26_214_400;

/// Prescaler and reload register values of the watchdog.
///
/// The downcounter is clocked from the 40 kHz oscillator through a divider
/// of `4 * 2^prescaler` and starts from `reload`, so that it runs for
/// `reload + 1` ticks of `100 * 2^prescaler` microseconds each.
#[derive(Clone, Copy, Debug, PartialEq, Eq, Structural)]
pub struct WatchdogConfig {
    /// Prescaler exponent
    pub prescaler: u8,
    /// Reload value of the downcounter
    pub reload: u16,
}

/// A write to one of the registers of the watchdog.
#[derive(Clone, Copy, Debug, PartialEq, Eq, Structural)]
pub enum RegisterWrite {
    /// A key, to the key register
    Key(u16),
    /// A prescaler exponent, to the prescaler register
    Prescaler(u8),
    /// A reload value, to the reload register
    Reload(u16),
}

/// The two flags of the status register.
#[derive(Clone, Copy, Debug, PartialEq, Eq, Structural)]
pub struct StatusFlags {
    /// A write to the reload register has not taken effect yet
    pub reload_update: bool,
    /// A write to the prescaler register has not taken effect yet
    pub prescaler_update: bool,
}

/// How far the watchdog has been brought.
#[derive(Clone, Copy, Debug, PartialEq, Eq, Structural)]
pub enum WatchdogState {
    /// Nothing has been written to the registers
    Uninitialized,
    /// Prescaler and reload value have been written; the watchdog is not
    /// counting
    Configured,
    /// The watchdog is counting, and nothing stops it
    Running,
}

/// The prescaler exponent for a period of `ticks` cycles of the 40 kHz
/// oscillator: 0 below 2^15 cycles, and one more each time the cycle count
/// doubles from there. A 32-bit period in microseconds holds fewer than 2^28
/// cycles, which is where the table ends.
pub open spec fn prescaler_for(ticks: nat) -> nat {
    if ticks < 0x8000 {
        0
    } else if ticks < 0x1_0000 {
        1
    } else if ticks < 0x2_0000 {
        2
    } else if ticks < 0x4_0000 {
        3
    } else if ticks < 0x8_0000 {
        4
    } else if ticks < 0x10_0000 {
        5
    } else if ticks < 0x20_0000 {
        6
    } else if ticks < 0x40_0000 {
        7
    } else if ticks < 0x80_0000 {
        8
    } else if ticks < 0x100_0000 {
        9
    } else if ticks < 0x200_0000 {
        10
    } else if ticks < 0x400_0000 {
        11
    } else if ticks < 0x800_0000 {
        12
    } else {
        13
    }
}

/// The reload value for a period of `count` whole ticks of the downcounter:
/// one less than the count, held between 0 and the largest value of the
/// register.
pub open spec fn reload_for(count: nat) -> nat {
    if count > 4096 {
        0xFFF
    } else if count == 0 {
        0
    } else {
        (count - 1) as nat
    }
}

/// The register values derived from a period in microseconds.
///
/// Up to 409.6 ms the prescaler exponent is 0 and the period is counted in
/// ticks of 100 microseconds; from there on the reload value is the largest
/// one and the prescaler exponent alone follows the period.
pub open spec fn derived_config(period_us: u32) -> WatchdogConfig {
    WatchdogConfig {
        prescaler: prescaler_for(period_us as nat / 25) as u8,
        reload: if period_us >= FULL_RELOAD_PERIOD_US {
            MAX_RELOAD
        } else {
            reload_for(period_us as nat / 100) as u16
        },
    }
}

/// Length in microseconds of one tick of the downcounter: 25 microseconds
/// for each cycle of the oscillator, times the divider `4 * 2^prescaler`.
pub open spec fn tick_us(prescaler: nat) -> nat {
    100 * pow2(prescaler)
}

/// The writes that give the watchdog its configuration: the unlock key, then
/// the prescaler exponent, then the reload value.
pub open spec fn init_writes(config: WatchdogConfig) -> Seq<RegisterWrite> {
    seq![
        RegisterWrite::Key(KEY_UNLOCK),
        RegisterWrite::Prescaler(config.prescaler),
        RegisterWrite::Reload(config.reload),
    ]
}

/// The writes that start the watchdog with a configuration: those that
/// configure it, then the reload key, then the enable key.
pub open spec fn start_writes(config: WatchdogConfig) -> Seq<RegisterWrite> {
    init_writes(config) + seq![RegisterWrite::Key(KEY_RELOAD), RegisterWrite::Key(KEY_ENABLE)]
}

impl WatchdogConfig {
    /// Whether the values are among those that a period can be given: a
    /// prescaler exponent up to 13 and a reload value of 12 bits.
    pub open spec fn in_range(self) -> bool {
        self.prescaler <= 13 && self.reload <= MAX_RELOAD
    }

    /// The time in microseconds after which a watchdog with these register
    /// values resets the system, unless it is fed.
    pub open spec fn timeout_us(self) -> nat {
        tick_us(self.prescaler as nat) * (self.reload + 1) as nat
    }

    /// Derives the prescaler exponent and the reload value for a period in
    /// microseconds.
    ///
    /// The prescaler exponent is 17 less the leading zeros of the period in
    /// oscillator cycles of 25 microseconds, or 0 where there are more than
    /// 17. The reload value is one less than the whole ticks that the period
    /// holds at that prescaler, held between 0 and `MAX_RELOAD`. No period
    /// is refused: one that is too short gets the shortest timeout, and one
    /// that is too long the largest reload value.
    pub fn for_period(period_us: u32) -> (config: WatchdogConfig)
        ensures
            config == derived_config(period_us),
            config.in_range(),
    {
        let ticks: u32 = period_us / 25;
        let pr: u32 = 17u32.saturating_sub(ticks.leading_zeros());
        proof {
            lemma_config_by_leading_zeros(period_us);
        }
        let count: u32 = (period_us >> pr) / 100;
        let rlr: u32 = if count > 4096 {
            0xFFF
        } else if count == 0 {
            0
        } else {
            count - 1
        };
        WatchdogConfig { prescaler: pr as u8, reload: rlr as u16 }
    }

    /// The time after which a watchdog with these register values resets the
    /// system, unless it is fed.
    pub fn timeout(&self) -> (timeout: Microseconds)
        requires
            self.in_range(),
        ensures
            timeout.0 == self.timeout_us(),
    {
        proof {
            vstd::arithmetic::power2::lemma2_to64();
            vstd::bits::lemma_u32_shl_is_mul(100, self.prescaler as u32);
        }
        let tick: u32 = 100u32 << (self.prescaler as u32);
        assert(tick * (self.reload + 1) <= 819_200 * 4096) by (nonlinear_arith)
            requires
                tick <= 819_200,
                self.reload + 1 <= 4096,
        ;
        Microseconds(tick * (self.reload as u32 + 1))
    }
}

/// The independent watchdog is based on a 12-bit downcounter and 8-bit prescaler. It is
/// clocked from an independent 40 kHz internal RC and as it operates independently of the
/// main clock, it can operate in Stop and Standby modes. It can be used either as a watchdog
/// to reset the device when a problem occurs, or as a free-running timer for application timeout
/// management. It is hardware- or software-configurable through the option bytes. The counter
/// can be frozen in debug mode.
///
/// The driver decides what is written to the registers of the watchdog, and
/// in which order; each operation returns its writes, for the owner of the
/// register block to perform in that order. Once started the watchdog cannot
/// be stopped, and the driver has no operation that would.
#[derive(Debug)]
pub struct IndependentWatchdog {
    state: WatchdogState,
    config: Option<WatchdogConfig>,
}

impl IndependentWatchdog {
    #[verifier::type_invariant]
    spec fn well_formed(self) -> bool {
        &&& self.state is Uninitialized ==> self.config is None
        &&& self.state is Configured ==> self.config is Some
        &&& self.config matches Some(config) ==> config.in_range()
    }

    /// How far the watchdog has been brought.
    pub closed spec fn spec_state(&self) -> WatchdogState {
        self.state
    }

    /// The configuration that was last written, if any was.
    pub closed spec fn spec_config(&self) -> Option<WatchdogConfig> {
        self.config
    }

    /// A driver for a watchdog that has not been touched.
    pub fn new() -> (watchdog: IndependentWatchdog)
        ensures
            watchdog.state() is Uninitialized,
            watchdog.config() is None,
    {
        IndependentWatchdog { state: WatchdogState::Uninitialized, config: None }
    }

    /// How far the watchdog has been brought.
    #[verifier::when_used_as_spec(spec_state)]
    pub fn state(&self) -> (state: WatchdogState)
        ensures
            state == self.spec_state(),
            state is Uninitialized ==> self.config() is None,
            state is Configured ==> self.config() is Some,
    {
        proof {
            use_type_invariant(self);
        }
        self.state
    }

    /// The configuration that was last written, if any was.
    #[verifier::when_used_as_spec(spec_config)]
    pub fn config(&self) -> (config: Option<WatchdogConfig>)
        ensures
            config == self.spec_config(),
            config matches Some(written) ==> written.in_range(),
    {
        proof {
            use_type_invariant(self);
        }
        self.config
    }

    /// Configures the watchdog for a period in microseconds.
    ///
    /// Returns the writes that do it: the key that opens the prescaler and
    /// reload registers, then the two values derived from the period. A
    /// watchdog that is running keeps running.
    pub fn init(&mut self, period: u32) -> (writes: [RegisterWrite; 3])
        ensures
            final(self).config() == Some(derived_config(period)),
            final(self).state() == if old(self).state() is Running {
                WatchdogState::Running
            } else {
                WatchdogState::Configured
            },
            writes@ == init_writes(derived_config(period)),
    {
        let config = WatchdogConfig::for_period(period);
        let state = match self.state {
            WatchdogState::Running => WatchdogState::Running,
            _ => WatchdogState::Configured,
        };
        *self = IndependentWatchdog { state, config: Some(config) };
        [
            RegisterWrite::Key(KEY_UNLOCK),
            RegisterWrite::Prescaler(config.prescaler),
            RegisterWrite::Reload(config.reload),
        ]
    }

    /// Whether a write to the prescaler or to the reload register is still
    /// on its way into the watchdog, going by the flags read from the status
    /// register.
    pub fn pending_update(&self, status: StatusFlags) -> (pending: bool)
        ensures
            pending == (status.reload_update || status.prescaler_update),
    {
        status.reload_update || status.prescaler_update
    }

    /// Starts the watchdog. Returns the one write that does it, the enable
    /// key. The configuration stays as it is.
    pub fn enable(&mut self) -> (write: RegisterWrite)
        ensures
            final(self).state() is Running,
            final(self).config() == old(self).config(),
            write == RegisterWrite::Key(KEY_ENABLE),
    {
        proof {
            use_type_invariant(&*self);
        }
        self.state = WatchdogState::Running;
        RegisterWrite::Key(KEY_ENABLE)
    }

    /// Sets the downcounter back to the reload value. Returns the one write
    /// that does it, the reload key; state and configuration stay as they
    /// are.
    pub fn reload(&mut self) -> (write: RegisterWrite)
        ensures
            *final(self) == *old(self),
            write == RegisterWrite::Key(KEY_RELOAD),
    {
        RegisterWrite::Key(KEY_RELOAD)
    }

    /// Triggers the watchdog. This must be done once the watchdog is started
    /// to prevent the processor being reset.
    ///
    /// Returns the one write that does it, the reload key; state and
    /// configuration stay as they are.
    pub fn feed(&mut self) -> (write: RegisterWrite)
        ensures
            *final(self) == *old(self),
            write == RegisterWrite::Key(KEY_RELOAD),
    {
        self.reload()
    }

    /// Starts the watchdog with a given period, typically once this is done
    /// the watchdog needs to be kicked periodically or the processor is reset.
    ///
    /// Returns the writes that do it: those that configure the watchdog for
    /// the period, then the reload key, then the enable key.
    pub fn start<T: ExactInto<Microseconds>>(&mut self, period: T) -> (writes: [RegisterWrite; 5])
        requires
            period.fits(),
        ensures
            final(self).state() is Running,
            final(self).config() == Some(derived_config(period.converted().0)),
            writes@ == start_writes(derived_config(period.converted().0)),
    {
        let period_us: Microseconds = period.exact_into();
        let configure = self.init(period_us.0);
        let reload = self.reload();
        let enable = self.enable();
        [configure[0], configure[1], configure[2], reload, enable]
    }
}

/// Every period gives register values in range.
pub proof fn lemma_config_in_range(period_us: u32)
    ensures
        derived_config(period_us).in_range(),
{
}

/// The derived values, read off the bits of the period. The prescaler
/// exponent is 17 less the leading zeros of the period in oscillator cycles
/// of 25 microseconds, and 0 where there are more than 17. The reload value
/// is the one for the period shifted right by the prescaler exponent and
/// divided by 100.
pub proof fn lemma_config_by_leading_zeros(period_us: u32)
    ensures
        derived_config(period_us).prescaler == 17u32.saturating_sub(
            ((period_us / 25) as u32).leading_zeros(),
        ),
        derived_config(period_us).reload == reload_for(
            ((period_us >> (derived_config(period_us).prescaler as u32)) / 100) as nat,
        ),
{
    let ticks = (period_us / 25) as u32;
    let e = derived_config(period_us).prescaler;
    vstd::arithmetic::power2::lemma2_to64();
    if ticks != 0 {
        lemma_leading_zeros_bracket(ticks);
    }
    vstd::bits::lemma_u32_shr_is_div(period_us, e as u32);
    vstd::arithmetic::div_mod::lemma_div_denominator(period_us as int, pow2(e as nat) as int, 100);
    lemma_reload_counts_ticks(period_us);
}

/// From 2^15 cycles on, the prescaler exponent `e` is the one with
/// `2^(14 + e) <= ticks < 2^(15 + e)`.
pub proof fn lemma_prescaler_bracket(ticks: nat)
    requires
        0x8000 <= ticks < 0x1000_0000,
    ensures
        1 <= prescaler_for(ticks) <= 13,
        pow2(14 + prescaler_for(ticks)) <= ticks < pow2(15 + prescaler_for(ticks)),
{
    vstd::arithmetic::power2::lemma2_to64();
}

/// The prescaler exponent is at most `e` exactly for the periods of fewer
/// than `2^(15 + e)` oscillator cycles.
pub proof fn lemma_prescaler_at_most(ticks: nat, e: nat)
    requires
        ticks < 0x1000_0000,
        e <= 13,
    ensures
        prescaler_for(ticks) <= e <==> ticks < pow2(15 + e),
{
    vstd::arithmetic::power2::lemma2_to64();
}

/// The reload value is the one for the whole ticks that the period holds at
/// the derived prescaler.
pub proof fn lemma_reload_counts_ticks(period_us: u32)
    ensures
        derived_config(period_us).reload == reload_for(
            period_us as nat / tick_us(derived_config(period_us).prescaler as nat),
        ),
{
    vstd::arithmetic::power2::lemma2_to64();
    if period_us >= FULL_RELOAD_PERIOD_US {
        lemma_full_count(period_us);
    }
}

/// The reload value is the largest one exactly from 409.6 ms on, and so for
/// every period at or above the longest that the hardware can time.
pub proof fn lemma_reload_is_full(period_us: u32)
    ensures
        derived_config(period_us).reload == MAX_RELOAD <==> period_us >= FULL_RELOAD_PERIOD_US,
        period_us >= MAX_PERIOD_US ==> derived_config(period_us).reload == MAX_RELOAD,
{
}

/// What the derived timeout is to the period asked for. Below the shortest
/// period it is the shortest period. From there up to 409.6 ms it is the
/// period rounded down to a whole tick of 100 microseconds. From 409.6 ms on
/// it is 4096 ticks at the derived prescaler, which is more than half the
/// period and not more than the period.
pub proof fn lemma_timeout_bounds(period_us: u32)
    ensures
        period_us < MIN_PERIOD_US ==> derived_config(period_us).timeout_us() == MIN_PERIOD_US,
        MIN_PERIOD_US <= period_us < FULL_RELOAD_PERIOD_US ==> {
            &&& derived_config(period_us).timeout_us() == 100 * (period_us as nat / 100)
            &&& derived_config(period_us).timeout_us() <= period_us
                < derived_config(period_us).timeout_us() + tick_us(0)
        },
        period_us >= FULL_RELOAD_PERIOD_US ==> {
            &&& derived_config(period_us).timeout_us() == 4096 * tick_us(
                derived_config(period_us).prescaler as nat,
            )
            &&& derived_config(period_us).timeout_us() <= period_us < 2 * derived_config(
                period_us,
            ).timeout_us()
        },
{
    vstd::arithmetic::power2::lemma2_to64();
    let ticks = period_us as nat / 25;
    let e = prescaler_for(ticks);
    if period_us >= FULL_RELOAD_PERIOD_US {
        assert(tick_us(e) * 4096 == 4096 * tick_us(e)) by (nonlinear_arith);
        if ticks >= 0x8000 {
            assert(4096 * tick_us(e) == 25 * pow2(14 + e) && 2 * (4096 * tick_us(e)) == 25 * pow2(
                15 + e,
            )) by (nonlinear_arith)
                requires
                    tick_us(e) == 100 * pow2(e),
                    pow2(14 + e) == 16384 * pow2(e),
                    pow2(15 + e) == 32768 * pow2(e),
            ;
        }
    }
}

/// The derived timeout is no shorter than the period asked for exactly where
/// the period is at most the shortest one, a whole number of 100-microsecond
/// ticks below 409.6 ms, or 4096 whole ticks at the derived prescaler. It is
/// then within one tick of the period.
pub proof fn lemma_timeout_covers_period(period_us: u32)
    ensures
        derived_config(period_us).timeout_us() >= period_us <==> {
            ||| period_us <= MIN_PERIOD_US
            ||| period_us < FULL_RELOAD_PERIOD_US && period_us % 100 == 0
            ||| period_us == 4096 * tick_us(derived_config(period_us).prescaler as nat)
        },
        derived_config(period_us).timeout_us() >= period_us ==> derived_config(
            period_us,
        ).timeout_us() - period_us <= tick_us(derived_config(period_us).prescaler as nat),
{
    lemma_timeout_bounds(period_us);
}

/// A nonzero 32-bit value lies between the two powers of two that its
/// count of leading zeros names.
proof fn lemma_leading_zeros_bracket(x: u32)
    requires
        x != 0,
    ensures
        x.leading_zeros() < 32,
        pow2((31 - x.leading_zeros()) as nat) <= x < pow2((32 - x.leading_zeros()) as nat),
{
    vstd::arithmetic::power2::lemma2_to64();
    let lz: u32 = x.leading_zeros();
    let top: u32 = (31 - lz) as u32;
    assert(x >> top != 0) by (bit_vector)
        requires
            (x >> top) & 1 != 0,
    ;
    vstd::bits::lemma_u32_shr_is_div(x, top);
    assert(x >= pow2(top as nat)) by (nonlinear_arith)
        requires
            x as nat / pow2(top as nat) != 0,
            pow2(top as nat) > 0,
    ;
    if lz > 0 {
        let above: u32 = (32 - lz) as u32;
        vstd::bits::lemma_u32_shr_is_div(x, above);
        assert(x < pow2(above as nat)) by (nonlinear_arith)
            requires
                x as nat / pow2(above as nat) == 0,
                pow2(above as nat) > 0,
        ;
    }
}

/// From 409.6 ms on, a period holds 4096 ticks or more at its prescaler.
proof fn lemma_full_count(period_us: u32)
    requires
        period_us >= FULL_RELOAD_PERIOD_US,
    ensures
        period_us as nat / tick_us(prescaler_for(period_us as nat / 25)) >= 4096,
{
    vstd::arithmetic::power2::lemma2_to64();
    let ticks = period_us as nat / 25;
    let e = prescaler_for(ticks);
    let tick = tick_us(e);
    if ticks >= 0x8000 {
        assert(4096 * tick == 25 * pow2(14 + e)) by (nonlinear_arith)
            requires
                tick == 100 * pow2(e),
                pow2(14 + e) == 16384 * pow2(e),
        ;
    }
    assert(period_us as nat / tick >= 4096) by (nonlinear_arith)
        requires
            4096 * tick <= period_us,
            tick > 0,
    ;
}

} // verus!
