//! The fixed-period control loop, as a state machine: each call of
//! `Scheduler::tick` computes one tick's duty cycles, advances the hue and
//! the heartbeat counter, and tells the caller what to do with the outputs.
//! Running the peripherals and sleeping between ticks is the caller's part.
use vstd::prelude::*;

use crate::color::{hsv_to_rgb, rgb_of};

verus! {

/// Number of hue positions on the colour wheel; the hue advances by one per
/// tick, so a full rainbow takes this many ticks.
pub const HUE_STEPS: u16 = 360;

/// Reference PWM carrier frequency, in hertz.
pub const PWM_FREQUENCY_HZ: u32 = 1000;

/// Reference tick interval of the rainbow loop, in milliseconds.
pub const TICK_MILLIS: u64 = 50;

/// Reference number of ticks between two heartbeat toggles.
pub const HEARTBEAT_TICKS: u8 = 20;

/// Reference saturation of the rainbow (full).
pub const RAINBOW_SATURATION: u8 = 255;

/// Reference value (brightness) of the rainbow (full).
pub const RAINBOW_VALUE: u8 = 255;

/// Duty value for a channel level in `0..=255` on a timer whose full duty
/// is `max_duty`.
pub open spec fn duty_of(level: int, max_duty: int) -> int {
    level * max_duty / 255
}

/// Rescales a channel level in `0..=255` to the duty range `0..=max_duty`,
/// rounding down. The product is formed in 64 bits, so every `max_duty` is
/// accepted.
pub fn scale_duty(level: u8, max_duty: u32) -> (d: u32)
    ensures
        d as int == duty_of(level as int, max_duty as int),
        d <= max_duty,
{
    proof {
        lemma_duty_at_most_max(level as int, max_duty as int);
    }
    let wide: u64 = level as u64 * max_duty as u64;
    (wide / 255) as u32
}

/// A duty value never exceeds the timer's full duty.
pub proof fn lemma_duty_at_most_max(level: int, max_duty: int)
    requires
        0 <= level <= 255,
        0 <= max_duty,
    ensures
        0 <= duty_of(level, max_duty) <= max_duty,
        level * max_duty <= 255 * max_duty,
{
    assert(0 <= level * max_duty <= 255 * max_duty) by (nonlinear_arith)
        requires
            0 <= level <= 255,
            0 <= max_duty,
    ;
    vstd::arithmetic::div_mod::lemma_div_is_ordered(level * max_duty, 255 * max_duty, 255);
    vstd::arithmetic::div_mod::lemma_div_multiples_vanish(max_duty, 255);
}

/// For a fixed full duty, a brighter channel never gets a smaller duty.
pub proof fn lemma_duty_monotonic(lo: int, hi: int, max_duty: int)
    requires
        0 <= lo <= hi <= 255,
        0 <= max_duty,
    ensures
        duty_of(lo, max_duty) <= duty_of(hi, max_duty),
{
    assert(lo * max_duty <= hi * max_duty) by (nonlinear_arith)
        requires
            lo <= hi,
            0 <= max_duty,
    ;
    vstd::arithmetic::div_mod::lemma_div_is_ordered(lo * max_duty, hi * max_duty, 255);
}

/// The tunable parameters of the loop. The tick interval and the heartbeat
/// threshold are independent: the hue moves one step per tick whatever the
/// interval, and the heartbeat period is their product.
#[derive(Clone, Copy, Debug, PartialEq, Eq)]
pub struct Config {
    pub pwm_frequency_hz: u32,
    pub tick_millis: u64,
    pub heartbeat_ticks: u8,
    pub saturation: u8,
    pub value: u8,
}

impl Config {
    /// A heartbeat needs at least one tick per period.
    pub open spec fn wf(&self) -> bool {
        self.heartbeat_ticks >= 1
    }

    /// The reference rainbow: 1 kHz carrier, 50 ms ticks, a heartbeat every
    /// 20 ticks, full saturation and brightness.
    pub fn rainbow() -> (c: Config)
        ensures
            c == (Config {
                pwm_frequency_hz: PWM_FREQUENCY_HZ,
                tick_millis: TICK_MILLIS,
                heartbeat_ticks: HEARTBEAT_TICKS,
                saturation: RAINBOW_SATURATION,
                value: RAINBOW_VALUE,
            }),
            c.wf(),
    {
        Config {
            pwm_frequency_hz: PWM_FREQUENCY_HZ,
            tick_millis: TICK_MILLIS,
            heartbeat_ticks: HEARTBEAT_TICKS,
            saturation: RAINBOW_SATURATION,
            value: RAINBOW_VALUE,
        }
    }
}

/// The diagnostic record sent once per heartbeat: the hue after the tick's
/// advance and the levels that the tick wrote.
#[derive(Clone, Copy, Debug, PartialEq, Eq)]
pub struct Report {
    pub hue: u16,
    pub r: u8,
    pub g: u8,
    pub b: u8,
}

/// What one tick asks of the peripherals: the three duty values to write,
/// whether to toggle the heartbeat output, and the record to log, if any.
#[derive(Clone, Copy, Debug, PartialEq, Eq)]
pub struct TickOutput {
    pub duty_r: u32,
    pub duty_g: u32,
    pub duty_b: u32,
    pub toggle_heartbeat: bool,
    pub report: Option<Report>,
}

/// The hue after one tick.
pub open spec fn next_hue(hue: int) -> int {
    (hue + 1) % 360
}

/// The heartbeat counter after one tick: it counts up and starts again at 0
/// when it reaches `limit`.
pub open spec fn next_counter(counter: int, limit: int) -> int {
    if counter + 1 >= limit {
        0
    } else {
        counter + 1
    }
}

/// The loop state, owned by the loop alone: the configuration, the full
/// duty that the timer reported at startup, the current hue and the
/// heartbeat counter.
#[derive(Clone, Copy, Debug, PartialEq, Eq)]
pub struct Scheduler {
    pub config: Config,
    pub max_duty: u32,
    pub hue: u16,
    pub counter: u8,
}

impl Scheduler {
    /// The hue stays on the wheel and the counter below the threshold.
    pub open spec fn wf(&self) -> bool {
        &&& self.config.wf()
        &&& self.hue < 360
        &&& self.counter < self.config.heartbeat_ticks
    }

    /// Whether this tick toggles the heartbeat.
    pub open spec fn toggles(&self) -> bool {
        self.counter + 1 >= self.config.heartbeat_ticks
    }

    /// What this tick asks of the peripherals.
    pub open spec fn output(&self) -> TickOutput {
        let c = rgb_of(self.hue as int, self.config.saturation as int, self.config.value as int);
        TickOutput {
            duty_r: duty_of(c.0 as int, self.max_duty as int) as u32,
            duty_g: duty_of(c.1 as int, self.max_duty as int) as u32,
            duty_b: duty_of(c.2 as int, self.max_duty as int) as u32,
            toggle_heartbeat: self.toggles(),
            report: if self.toggles() {
                Some(Report { hue: next_hue(self.hue as int) as u16, r: c.0, g: c.1, b: c.2 })
            } else {
                None
            },
        }
    }

    /// The state after this tick.
    pub open spec fn stepped(&self) -> Scheduler {
        Scheduler {
            hue: next_hue(self.hue as int) as u16,
            counter: next_counter(self.counter as int, self.config.heartbeat_ticks as int) as u8,
            ..*self
        }
    }

    /// The state after `n` ticks.
    pub open spec fn run(&self, n: nat) -> Scheduler
        decreases n,
    {
        if n == 0 {
            *self
        } else {
            self.run((n - 1) as nat).stepped()
        }
    }

    /// How many of the first `n` ticks toggle the heartbeat.
    pub open spec fn toggles_in(&self, n: nat) -> nat
        decreases n,
    {
        if n == 0 {
            0
        } else {
            self.toggles_in((n - 1) as nat) + if self.run((n - 1) as nat).toggles() {
                1nat
            } else {
                0nat
            }
        }
    }

    /// The state before the first tick: hue 0, counter 0.
    pub fn new(config: Config, max_duty: u32) -> (s: Scheduler)
        requires
            config.wf(),
        ensures
            s.wf(),
            s == (Scheduler { config, max_duty, hue: 0, counter: 0 }),
    {
        Scheduler { config, max_duty, hue: 0, counter: 0 }
    }

    /// Runs one tick: converts the current hue to levels, rescales them to
    /// duty values, advances the hue by one (wrapping at 360) and the
    /// heartbeat counter, and returns what the peripherals are to do.
    pub fn tick(&mut self) -> (o: TickOutput)
        requires
            old(self).wf(),
        ensures
            o == old(self).output(),
            *final(self) == old(self).stepped(),
            final(self).wf(),
    {
        let (r, g, b) = hsv_to_rgb(self.hue, self.config.saturation, self.config.value);
        let duty_r = scale_duty(r, self.max_duty);
        let duty_g = scale_duty(g, self.max_duty);
        let duty_b = scale_duty(b, self.max_duty);
        self.hue = (self.hue + 1) % HUE_STEPS;
        self.counter = self.counter + 1;
        let toggle_heartbeat = self.counter >= self.config.heartbeat_ticks;
        let report = if toggle_heartbeat {
            self.counter = 0;
            Some(Report { hue: self.hue, r, g, b })
        } else {
            None
        };
        TickOutput { duty_r, duty_g, duty_b, toggle_heartbeat, report }
    }
}

/// Ticking keeps the configuration and the full duty, keeps the state well
/// formed, and moves the hue `n` steps round the wheel in `n` ticks.
pub proof fn lemma_run(s: Scheduler, n: nat)
    requires
        s.wf(),
    ensures
        s.run(n).wf(),
        s.run(n).config == s.config,
        s.run(n).max_duty == s.max_duty,
        s.run(n).hue == (s.hue + n) % 360,
    decreases n,
{
    if n > 0 {
        lemma_run(s, (n - 1) as nat);
        let prev = s.run((n - 1) as nat);
        assert(prev.hue == (s.hue + n - 1) % 360);
        vstd::arithmetic::div_mod::lemma_add_mod_noop(s.hue + n - 1, 1, 360);
        assert(1int % 360 == 1);
    }
}

/// A full cycle of 360 ticks brings the hue back where it started, and the
/// duty values written then are those written at the start.
pub proof fn lemma_full_cycle(s: Scheduler)
    requires
        s.wf(),
    ensures
        s.run(360).hue == s.hue,
        s.run(360).output().duty_r == s.output().duty_r,
        s.run(360).output().duty_g == s.output().duty_g,
        s.run(360).output().duty_b == s.output().duty_b,
{
    lemma_run(s, 360);
    vstd::arithmetic::div_mod::lemma_mod_add_multiples_vanish(s.hue as int, 360);
}

/// Within the first heartbeat period the counter moves up by one per tick and
/// wraps once, and the heartbeat has toggled once the counter has wrapped.
proof fn lemma_counter_in_period(s: Scheduler, k: nat)
    requires
        s.wf(),
        k <= s.config.heartbeat_ticks,
    ensures
        s.run(k).counter == if s.counter + k < s.config.heartbeat_ticks {
            s.counter + k
        } else {
            s.counter + k - s.config.heartbeat_ticks
        },
        s.toggles_in(k) == if s.counter + k >= s.config.heartbeat_ticks {
            1int
        } else {
            0int
        },
    decreases k,
{
    if k > 0 {
        lemma_counter_in_period(s, (k - 1) as nat);
        lemma_run(s, (k - 1) as nat);
    }
}

/// In any heartbeat period of `heartbeat_ticks` ticks, from any well-formed
/// state and whatever the hue, the heartbeat toggles exactly once.
pub proof fn lemma_heartbeat_once_per_period(s: Scheduler)
    requires
        s.wf(),
    ensures
        s.toggles_in(s.config.heartbeat_ticks as nat) == 1,
{
    lemma_counter_in_period(s, s.config.heartbeat_ticks as nat);
}

} // verus!
