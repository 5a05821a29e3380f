use vstd::prelude::*;

verus! {

/// How long the ultrasonic sensor may keep its echo line in one state, in microseconds.
/// An echo from 400 cm away returns after about 23 ms; 30 ms leaves a margin.
pub const ECHO_TIMEOUT_US: i64 = 30_000;

/// Where a measurement stands. Times are readings of the microsecond system timer.
#[derive(Debug, Clone, Copy, PartialEq, Eq, Structural)]
pub enum EchoPhase {
    /// The trigger pulse was sent at `start_wait`; waiting for the echo line to rise.
    AwaitRise { start_wait: i64 },
    /// The echo line rose at `start_time`; waiting for it to fall.
    AwaitFall { start_time: i64 },
}

/// The result of one look at the echo line.
#[derive(Debug, Clone, Copy, PartialEq, Eq, Structural)]
pub enum EchoStep {
    /// Keep sampling, in this phase.
    Pending(EchoPhase),
    /// The echo line never rose: no answer from the sensor.
    NoEcho,
    /// The echo line stayed high too long: out of range, or stuck.
    EchoTooLong,
    /// The echo line fell; the pulse lasted this many microseconds.
    Echo(i64),
}

/// The time at which the current phase began.
pub open spec fn phase_start(p: EchoPhase) -> i64 {
    match p {
        EchoPhase::AwaitRise { start_wait } => start_wait,
        EchoPhase::AwaitFall { start_time } => start_time,
    }
}

/// Whether a difference of two timer readings fits in an `i64`.
pub open spec fn fits_i64(x: int) -> bool {
    i64::MIN <= x <= i64::MAX
}

/// The timer differences that one step computes fit in an `i64`: the time waited
/// while the echo line is still low, and the time since the rise once in the falling phase.
pub open spec fn step_in_range(p: EchoPhase, echo_high: bool, now: i64) -> bool {
    match p {
        EchoPhase::AwaitRise { start_wait } => !echo_high ==> fits_i64(now - start_wait),
        EchoPhase::AwaitFall { start_time } => fits_i64(now - start_time),
    }
}

/// One sample: the level of the echo line, then the timer read right after it.
/// While waiting for the rise, a low line times out after more than
/// [`ECHO_TIMEOUT_US`]; a high line starts the pulse at the time just read. While
/// waiting for the fall, a high line times out likewise; a low line ends the pulse.
pub open spec fn spec_echo_step(p: EchoPhase, echo_high: bool, now: i64) -> EchoStep {
    match p {
        EchoPhase::AwaitRise { start_wait } => if echo_high {
            EchoStep::Pending(EchoPhase::AwaitFall { start_time: now })
        } else if now - start_wait > ECHO_TIMEOUT_US {
            EchoStep::NoEcho
        } else {
            EchoStep::Pending(p)
        },
        EchoPhase::AwaitFall { start_time } => if !echo_high {
            EchoStep::Echo((now - start_time) as i64)
        } else if now - start_time > ECHO_TIMEOUT_US {
            EchoStep::EchoTooLong
        } else {
            EchoStep::Pending(p)
        },
    }
}

impl EchoPhase {
    /// A measurement whose trigger pulse ended when the timer read `now`.
    pub fn begin(now: i64) -> (r: Self)
        ensures
            r == (EchoPhase::AwaitRise { start_wait: now }),
    {
        EchoPhase::AwaitRise { start_wait: now }
    }

    /// Takes in one sample of the echo line and the timer.
    pub fn step(self, echo_high: bool, now: i64) -> (r: EchoStep)
        requires
            step_in_range(self, echo_high, now),
        ensures
            r == spec_echo_step(self, echo_high, now),
    {
        match self {
            EchoPhase::AwaitRise { start_wait } => {
                if echo_high {
                    EchoStep::Pending(EchoPhase::AwaitFall { start_time: now })
                } else if now - start_wait > ECHO_TIMEOUT_US {
                    EchoStep::NoEcho
                } else {
                    EchoStep::Pending(self)
                }
            },
            EchoPhase::AwaitFall { start_time } => {
                let waited = now - start_time;
                if !echo_high {
                    EchoStep::Echo(waited)
                } else if waited > ECHO_TIMEOUT_US {
                    EchoStep::EchoTooLong
                } else {
                    EchoStep::Pending(self)
                }
            },
        }
    }
}

/// A measurement gives up only after more than [`ECHO_TIMEOUT_US`] has passed in the
/// current phase, and a phase is kept only while that much has not passed.
pub proof fn lemma_timeouts_respect_the_limit(p: EchoPhase, echo_high: bool, now: i64)
    ensures
        (spec_echo_step(p, echo_high, now) is NoEcho || spec_echo_step(p, echo_high, now) is EchoTooLong)
            ==> now - phase_start(p) > ECHO_TIMEOUT_US,
        spec_echo_step(p, echo_high, now) == EchoStep::Pending(p) ==> now - phase_start(p)
            <= ECHO_TIMEOUT_US,
{
}

/// Phases only move forward: from waiting for the rise to waiting for the fall, at the
/// time of the rising sample; and a pulse length is reported only at a falling sample,
/// measured from the rise.
pub proof fn lemma_phases_move_forward(p: EchoPhase, echo_high: bool, now: i64)
    requires
        step_in_range(p, echo_high, now),
    ensures
        spec_echo_step(p, echo_high, now) matches EchoStep::Pending(q) ==> (q == p || (p is AwaitRise
            && echo_high && q == (EchoPhase::AwaitFall { start_time: now }))),
        spec_echo_step(p, echo_high, now) matches EchoStep::Echo(d) ==> (p is AwaitFall && !echo_high
            && d == now - phase_start(p)),
        spec_echo_step(p, echo_high, now) is NoEcho ==> p is AwaitRise && !echo_high,
        spec_echo_step(p, echo_high, now) is EchoTooLong ==> p is AwaitFall && echo_high,
{
}

/// While waiting for the fall, the first low sample ends the measurement, whatever
/// time has passed: the pulse lasted from the rise to that sample. Only a high line
/// keeps the measurement waiting for the fall.
pub proof fn lemma_first_low_sample_ends_the_pulse(start_time: i64, echo_high: bool, now: i64)
    requires
        fits_i64(now - start_time),
    ensures
        spec_echo_step(EchoPhase::AwaitFall { start_time }, false, now) == EchoStep::Echo(
            (now - start_time) as i64,
        ),
        (now - start_time) as i64 == now - start_time,
        spec_echo_step(EchoPhase::AwaitFall { start_time }, echo_high, now) is Pending
            ==> echo_high && now - start_time <= ECHO_TIMEOUT_US,
{
}

/// A pulse that rises at `t_rise` and falls at `t_fall` is measured as lasting
/// `t_fall - t_rise`, however long the wait for the rise was.
pub proof fn lemma_pulse_length_is_rise_to_fall(start_wait: i64, t_rise: i64, t_fall: i64)
    requires
        fits_i64(t_fall - t_rise),
    ensures
        spec_echo_step(EchoPhase::AwaitRise { start_wait }, true, t_rise) == EchoStep::Pending(
            EchoPhase::AwaitFall { start_time: t_rise },
        ),
        spec_echo_step(EchoPhase::AwaitFall { start_time: t_rise }, false, t_fall)
            == EchoStep::Echo((t_fall - t_rise) as i64),
        (t_fall - t_rise) as i64 == t_fall - t_rise,
{
}

/// While waiting for the rise, a low line keeps waiting up to and including
/// [`ECHO_TIMEOUT_US`] (30 ms) and gives up with no echo after it.
pub proof fn lemma_wait_for_rise(start_wait: i64, now: i64)
    ensures
        now - start_wait <= 30_000 ==> spec_echo_step(
            EchoPhase::AwaitRise { start_wait },
            false,
            now,
        ) == EchoStep::Pending(EchoPhase::AwaitRise { start_wait }),
        now - start_wait > 30_000 ==> spec_echo_step(
            EchoPhase::AwaitRise { start_wait },
            false,
            now,
        ) == EchoStep::NoEcho,
{
}

/// While waiting for the fall, a high line keeps waiting up to and including
/// [`ECHO_TIMEOUT_US`] (30 ms) and gives up as too long after it.
pub proof fn lemma_wait_for_fall(start_time: i64, now: i64)
    ensures
        now - start_time <= 30_000 ==> spec_echo_step(
            EchoPhase::AwaitFall { start_time },
            true,
            now,
        ) == EchoStep::Pending(EchoPhase::AwaitFall { start_time }),
        now - start_time > 30_000 ==> spec_echo_step(
            EchoPhase::AwaitFall { start_time },
            true,
            now,
        ) == EchoStep::EchoTooLong,
{
}

} // verus!
