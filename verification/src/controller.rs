//! The countdown/alarm state machine: remaining minutes, the two one-shot
//! alarms (per-minute tick and total session power-off), and the
//! power-enable flag. The host loop polls the button and the clock and feeds
//! both in as plain values, once per iteration, and reads back the digit
//! pair and the power flag.

use vstd::prelude::*;

use crate::alarm::AlarmTimer;

verus! {

/// The recognized configuration options. The defaults (15 minutes, tick
/// every 1 time unit, session of 15 time units) make the total power-on
/// time match the visible countdown.
#[derive(Clone, Copy, Debug, PartialEq, Eq, Structural)]
pub struct Config {
    /// The minute count a reset restores; at most 99, so that it fits the
    /// two-digit display.
    pub initial_minutes: u8,
    /// Time units between decrements of the minute counter.
    pub tick_interval: u64,
    /// Time units from reset until power to the controlled load is cut.
    pub session_duration: u64,
}

impl Config {
    /// A usable configuration: durations are positive and the initial count
    /// fits on two digits.
    pub open spec fn wf(self) -> bool {
        &&& 1 <= self.initial_minutes <= 99
        &&& self.tick_interval >= 1
        &&& self.session_duration >= 1
    }

    /// The default configuration: 15 minutes, one decrement per time unit,
    /// power for the full visible countdown.
    pub fn standard() -> (config: Config)
        ensures
            config == (Config { initial_minutes: 15u8, tick_interval: 1u64, session_duration: 15u64 }),
            config.wf(),
    {
        Config { initial_minutes: 15, tick_interval: 1, session_duration: 15 }
    }
}

/// The digit pair shown for a remaining-minute count: the base-10 split,
/// except that an elapsed countdown shows the fixed terminal indicator pair
/// (1, 1) rather than a literal "00".
pub open spec fn spec_display_digits(minutes: int) -> (int, int) {
    if minutes == 0 {
        (1, 1)
    } else {
        (minutes / 10, minutes % 10)
    }
}

/// Terminal display override: an elapsed countdown always shows the terminal
/// indicator pair, and no remaining-minute count ever shows the literal
/// (0, 0) pair.
pub proof fn lemma_terminal_override(minutes: int)
    requires
        0 <= minutes,
    ensures
        minutes == 0 ==> spec_display_digits(minutes) == (1int, 1int),
        spec_display_digits(minutes) != (0int, 0int),
{
    if minutes != 0 {
        assert(minutes == 10 * (minutes / 10) + minutes % 10) by (nonlinear_arith)
            requires minutes >= 1,
        ;
    }
}

/// The countdown state machine. `Running` is `minutes_remaining > 0`,
/// `Expired` is `minutes_remaining == 0`; the state stays `Expired` until a
/// reset event arrives. The state is created once, mutated only by the
/// event handlers below, and reinitialized in place on reset.
#[derive(Clone, Copy, Debug, PartialEq, Eq, Structural)]
pub struct CountdownController {
    /// The configuration fixed at startup.
    pub config: Config,
    /// Minutes left on the display; never exceeds `config.initial_minutes`.
    pub minutes_remaining: u8,
    /// True while the controlled load should receive power.
    pub power_on: bool,
    /// Governs the once-per-minute decrement cadence.
    pub tick_deadline: AlarmTimer,
    /// Governs the total session duration, independent of the tick cadence.
    pub power_deadline: AlarmTimer,
}

impl CountdownController {
    /// The state invariant: the configuration is usable and the minute
    /// count never leaves [0, initial].
    pub open spec fn wf(self) -> bool {
        &&& self.config.wf()
        &&& self.minutes_remaining <= self.config.initial_minutes
    }

    /// The state a reset at clock reading `now` produces: the full minute
    /// count, power restored, both alarms freshly armed.
    pub open spec fn spec_start(config: Config, now: u64) -> CountdownController {
        CountdownController {
            config,
            minutes_remaining: config.initial_minutes,
            power_on: true,
            tick_deadline: AlarmTimer::spec_scheduled(now, config.tick_interval),
            power_deadline: AlarmTimer::spec_scheduled(now, config.session_duration),
        }
    }

    /// The reset transition: unconditionally re-enter `Running` with the
    /// full minute count, available from any state.
    pub open spec fn spec_reset(self, now: u64) -> CountdownController {
        CountdownController::spec_start(self.config, now)
    }

    /// The tick-expiry transition: while minutes remain, one decrement and a
    /// fresh tick deadline; nothing otherwise. It never touches the power
    /// output: that is governed solely by the power-expiry transition.
    pub open spec fn spec_tick(self, now: u64) -> CountdownController {
        if self.tick_deadline.spec_finished(now) && self.minutes_remaining > 0 {
            CountdownController {
                minutes_remaining: (self.minutes_remaining - 1) as u8,
                tick_deadline: AlarmTimer::spec_scheduled(now, self.config.tick_interval),
                ..self
            }
        } else {
            self
        }
    }

    /// The power-expiry transition: once the session alarm has expired, the
    /// power output is deasserted, independent of the minute count.
    pub open spec fn spec_power(self, now: u64) -> CountdownController {
        if self.power_deadline.spec_finished(now) {
            CountdownController { power_on: false, ..self }
        } else {
            self
        }
    }

    /// One full loop iteration, in the canonical priority order: reset
    /// first, so that it overrides any simultaneous expiry, then tick
    /// expiry, then power expiry.
    pub open spec fn spec_step(self, reset_asserted: bool, now: u64) -> CountdownController {
        (if reset_asserted {
            self.spec_reset(now)
        } else {
            self
        }).spec_tick(now).spec_power(now)
    }

    /// Creates the state once at startup: the full minute count, power on,
    /// both alarms armed from the reading `now`.
    pub fn startup(config: Config, now: u64) -> (controller: CountdownController)
        requires
            config.wf(),
            now + config.tick_interval <= u64::MAX,
            now + config.session_duration <= u64::MAX,
        ensures
            controller == CountdownController::spec_start(config, now),
            controller.wf(),
    {
        let mut tick_deadline = AlarmTimer::unarmed();
        let mut power_deadline = AlarmTimer::unarmed();
        tick_deadline.schedule(now, config.tick_interval);
        power_deadline.schedule(now, config.session_duration);
        CountdownController {
            config,
            minutes_remaining: config.initial_minutes,
            power_on: true,
            tick_deadline,
            power_deadline,
        }
    }

    /// Handles the reset event (button asserted): re-enters `Running` with
    /// the full minute count, restores power, and re-arms both alarms from
    /// the reading `now`. Available from any state, `Expired` included.
    pub fn handle_reset(&mut self, now: u64)
        requires
            old(self).wf(),
            now + old(self).config.tick_interval <= u64::MAX,
            now + old(self).config.session_duration <= u64::MAX,
        ensures
            *final(self) == old(self).spec_reset(now),
            final(self).wf(),
    {
        self.minutes_remaining = self.config.initial_minutes;
        self.power_on = true;
        self.tick_deadline.schedule(now, self.config.tick_interval);
        self.power_deadline.schedule(now, self.config.session_duration);
    }

    /// Handles a possible tick expiry at reading `now`: if the tick alarm
    /// has expired and minutes remain, decrements once and re-arms the tick
    /// alarm; otherwise changes nothing. The power output is untouched.
    pub fn handle_tick(&mut self, now: u64)
        requires
            old(self).wf(),
            now + old(self).config.tick_interval <= u64::MAX,
        ensures
            *final(self) == old(self).spec_tick(now),
            final(self).wf(),
            final(self).minutes_remaining <= old(self).minutes_remaining,
            final(self).power_on == old(self).power_on,
    {
        if self.tick_deadline.finished(now) {
            if self.minutes_remaining > 0 {
                self.minutes_remaining = self.minutes_remaining - 1;
                self.tick_deadline.schedule(now, self.config.tick_interval);
            }
        }
    }

    /// Handles a possible power expiry at reading `now`: once the session
    /// alarm has expired, deasserts the power output. Independent of the
    /// minute count and of the tick alarm.
    pub fn handle_power(&mut self, now: u64)
        requires
            old(self).wf(),
        ensures
            *final(self) == old(self).spec_power(now),
            final(self).wf(),
            final(self).minutes_remaining == old(self).minutes_remaining,
    {
        if self.power_deadline.finished(now) {
            self.power_on = false;
        }
    }

    /// Runs one loop iteration at reading `now`: the reset check first (a
    /// reset in the same iteration as an expiry always wins), then the tick
    /// expiry, then the power expiry.
    pub fn step(&mut self, reset_asserted: bool, now: u64)
        requires
            old(self).wf(),
            now + old(self).config.tick_interval <= u64::MAX,
            now + old(self).config.session_duration <= u64::MAX,
        ensures
            *final(self) == old(self).spec_step(reset_asserted, now),
            final(self).wf(),
            !reset_asserted ==> final(self).minutes_remaining <= old(self).minutes_remaining,
    {
        if reset_asserted {
            self.handle_reset(now);
        }
        self.handle_tick(now);
        self.handle_power(now);
    }

    /// The digit pair to render at this instant, derived every iteration:
    /// the base-10 split of the remaining minutes, or the terminal
    /// indicator pair (1, 1) once the countdown has elapsed.
    pub fn display_digits(&self) -> (digits: (u8, u8))
        requires
            self.wf(),
        ensures
            (digits.0 as int, digits.1 as int) == spec_display_digits(self.minutes_remaining as int),
            digits.0 <= 9,
            digits.1 <= 9,
            self.minutes_remaining == 0 ==> digits == (1u8, 1u8),
    {
        if self.minutes_remaining == 0 {
            (1, 1)
        } else {
            (self.minutes_remaining / 10, self.minutes_remaining % 10)
        }
    }
}

/// Countdown monotonicity: an iteration without a reset never increases the
/// remaining minutes, and from any well-formed state the count stays within
/// [0, initial].
pub proof fn lemma_countdown_monotonic(controller: CountdownController, now: u64)
    requires
        controller.wf(),
    ensures
        controller.spec_step(false, now).minutes_remaining <= controller.minutes_remaining,
        0 <= controller.spec_step(false, now).minutes_remaining,
        controller.spec_step(false, now).minutes_remaining <= controller.config.initial_minutes,
{
}

/// Reset idempotence: a second reset in immediate succession (at the same
/// clock reading) leaves exactly the state the first one produced — the
/// full minute count, power on, both alarms freshly armed.
pub proof fn lemma_reset_idempotent(controller: CountdownController, now: u64)
    requires
        controller.wf(),
        now + controller.config.tick_interval <= u64::MAX,
        now + controller.config.session_duration <= u64::MAX,
    ensures
        controller.spec_step(true, now) == controller.spec_reset(now),
        controller.spec_step(true, now).spec_step(true, now) == controller.spec_step(true, now),
{
    let fresh = controller.spec_reset(now);
    assert(!fresh.tick_deadline.spec_finished(now));
    assert(!fresh.power_deadline.spec_finished(now));
}

/// Independence of the power and tick alarms: the power-expiry transition
/// never touches the minute count or the tick alarm, and the tick-expiry
/// transition never touches the power output or the session alarm. So a
/// session shorter than the visible countdown cuts power while minutes
/// remain, and the display keeps counting down afterwards.
pub proof fn lemma_alarm_independence(controller: CountdownController, now: u64)
    requires
        controller.wf(),
    ensures
        controller.spec_power(now).minutes_remaining == controller.minutes_remaining,
        controller.spec_power(now).tick_deadline == controller.tick_deadline,
        controller.spec_tick(now).power_on == controller.power_on,
        controller.spec_tick(now).power_deadline == controller.power_deadline,
{
}

} // verus!
