//! The service's three regions as pure decisions. The poll region's pass —
//! read, decide, hold back a slowdown, command — is a function from the
//! configuration, the commanded speed and one reading to an outcome; the
//! acceptor region's pass is a function from one message to one action; the
//! singleton lock is a two-state machine. The threads, sleeps, sockets and
//! the hardware bus that carry these decisions out live outside this crate.

use vstd::prelude::*;

verus! {

use crate::config::Config;
use crate::message::Message;
use crate::policy::decide;
use crate::policy::decide_spec;

/// What one pass of the poll region decided.
#[derive(Clone, Copy, PartialEq, Eq, Debug)]
pub struct PollOutcome {
    /// The target speed the step table chose for this reading.
    pub target: u8,
    /// Whether the cooldown rule held this pass back.
    pub delayed: bool,
    /// Seconds to wait before the command may be committed: the configured
    /// cooldown for a slowdown, zero otherwise.
    pub delay_before_commit: u64,
    /// The message to send through the control channel, or `None` when the
    /// commanded speed is already the target.
    pub command: Option<Message>,
    /// The commanded speed an observer sees while this pass runs: the old
    /// speed while a delayed commitment still waits, else the target.
    pub observed: u8,
}

/// Everything one poll pass must decide, given the step table, the cooldown,
/// the commanded speed going in and the reading:
/// - the target follows the step table alone;
/// - idempotence: a command goes out only when it would change the speed;
/// - hysteresis: a slowdown, and only a slowdown, waits one full cooldown
///   before it is committed, so the old speed is what is observed meanwhile.
pub open spec fn poll_outcome_ok(
    o: PollOutcome,
    entries: Seq<(u8, u8)>,
    slow_delay: u64,
    current_speed: u8,
    temp: u8,
) -> bool {
    &&& o.target == decide_spec(entries, temp)
    &&& (o.delayed <==> o.target < current_speed)
    &&& o.delay_before_commit == (if o.target < current_speed {
        slow_delay
    } else {
        0u64
    })
    &&& o.command == (if o.target != current_speed {
        Option::Some(Message::Fan(o.target))
    } else {
        Option::None::<Message>
    })
    &&& o.observed == (if o.target < current_speed {
        current_speed
    } else {
        o.target
    })
}

/// One pass of the poll region, as a pure decision; the poll thread performs
/// the wait and sends the command. After the pass the commanded speed is the
/// target, whether or not a command went out.
pub fn poll_step(config: &Config, current_speed: u8, current_temp: u8) -> (o: PollOutcome)
    ensures
        poll_outcome_ok(o, config.fan@, config.slow_delay, current_speed, current_temp),
{
    let target = decide(current_temp, &config.fan, current_speed);
    let delayed = target < current_speed;
    PollOutcome {
        target,
        delayed,
        delay_before_commit: if delayed {
            config.slow_delay
        } else {
            0
        },
        command: if target != current_speed {
            Some(Message::Fan(target))
        } else {
            None
        },
        observed: if delayed {
            current_speed
        } else {
            target
        },
    }
}

/// The commanded speed going into pass `i` of a poll run: the starting speed
/// for the first pass, afterwards the target of the pass before.
pub open spec fn speed_before(
    entries: Seq<(u8, u8)>,
    initial_speed: u8,
    readings: Seq<u8>,
    i: int,
) -> u8 {
    if i == 0 {
        initial_speed
    } else {
        decide_spec(entries, readings[i - 1])
    }
}

/// Replays the poll region over a series of readings, starting from a known
/// commanded speed, and reports every pass's outcome in order.
pub fn run_polls(config: &Config, initial_speed: u8, readings: &Vec<u8>) -> (outs: Vec<
    PollOutcome,
>)
    ensures
        outs@.len() == readings@.len(),
        forall|i: int|
            0 <= i < readings@.len() ==> poll_outcome_ok(
                #[trigger] outs@[i],
                config.fan@,
                config.slow_delay,
                speed_before(config.fan@, initial_speed, readings@, i),
                readings@[i],
            ),
{
    let mut outs: Vec<PollOutcome> = Vec::new();
    let mut current: u8 = initial_speed;
    let mut i: usize = 0;
    while i < readings.len()
        invariant
            i <= readings@.len(),
            outs@.len() == i,
            current == speed_before(config.fan@, initial_speed, readings@, i as int),
            forall|j: int|
                0 <= j < i ==> poll_outcome_ok(
                    #[trigger] outs@[j],
                    config.fan@,
                    config.slow_delay,
                    speed_before(config.fan@, initial_speed, readings@, j),
                    readings@[j],
                ),
        decreases readings@.len() - i,
    {
        let o = poll_step(config, current, readings[i]);
        current = o.target;
        outs.push(o);
        i = i + 1;
    }
    outs
}

/// What the acceptor does with one received message.
#[derive(Clone, Copy, PartialEq, Eq, Structural, Debug)]
pub enum AcceptorAction {
    /// Drive the fan to this speed over the hardware bus.
    Apply(u8),
    /// Leave the acceptor loop and shut the service down.
    Shutdown,
}

/// The acceptor region's decision for one message: a fan command is applied
/// to the hardware, a stop request ends the loop.
pub fn acceptor_step(msg: Message) -> (a: AcceptorAction)
    ensures
        a == (match msg {
            Message::Fan(speed) => AcceptorAction::Apply(speed),
            Message::Stop => AcceptorAction::Shutdown,
        }),
{
    match msg {
        Message::Fan(speed) => AcceptorAction::Apply(speed),
        Message::Stop => AcceptorAction::Shutdown,
    }
}

/// Why the service refuses to start.
#[derive(Clone, Copy, PartialEq, Eq, Structural, Debug)]
pub enum StartError {
    /// Another instance already holds the service lock.
    AlreadyRunning,
}

/// What taking the lock does: with the lock already held it stays held and
/// the start is refused; free, it is taken and the start goes ahead.
pub open spec fn acquire_spec(held: bool) -> (bool, Result<(), StartError>) {
    if held {
        (true, Result::Err(StartError::AlreadyRunning))
    } else {
        (true, Result::Ok(()))
    }
}

/// What a clean shutdown does: the lock is free, whatever it was.
pub open spec fn release_spec(held: bool) -> bool {
    false
}

/// The singleton service lock: a model of the persisted liveness marker and
/// channel endpoint whose presence means "exactly one instance runs".
pub struct ServiceLock {
    held: bool,
}

impl ServiceLock {
    /// Whether the marker is present.
    pub closed spec fn is_held(self) -> bool {
        self.held
    }

    /// The lock as found on a host where no instance runs.
    pub fn new() -> (r: ServiceLock)
        ensures
            !r.is_held(),
    {
        ServiceLock { held: false }
    }

    /// Startup's singleton step: refused with `AlreadyRunning` while the
    /// lock is held, else the lock is taken.
    pub fn acquire(&mut self) -> (r: Result<(), StartError>)
        ensures
            (final(self).is_held(), r) == acquire_spec(old(self).is_held()),
    {
        if self.held {
            Err(StartError::AlreadyRunning)
        } else {
            self.held = true;
            Ok(())
        }
    }

    /// Clean shutdown: the marker and the endpoint are removed, the lock is
    /// free again.
    pub fn release(&mut self)
        ensures
            final(self).is_held() == release_spec(old(self).is_held()),
    {
        self.held = false;
    }
}

/// Double-start law: while the lock is held a second start fails with
/// `AlreadyRunning` and the lock stays held; after a clean shutdown the next
/// start succeeds.
pub proof fn lemma_double_start(held: bool)
    ensures
        held ==> acquire_spec(held) == (true, Result::<(), StartError>::Err(
            StartError::AlreadyRunning,
        )),
        acquire_spec(release_spec(held)).1 == Result::<(), StartError>::Ok(()),
{
}

} // verus!
