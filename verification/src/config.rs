//! Runtime configuration: the poll cadence, the cooldown held before a
//! slowdown, and the temperature-to-speed step table. Values come in as
//! plain entries and are validated here; reading and parsing the
//! configuration file is a collaborator's job outside this crate.

use vstd::prelude::*;

verus! {

use crate::policy::table_wf;
use crate::MAX_SPEED;

/// The validated configuration the control loop runs on. Immutable after
/// load; the step table is held as (temperature, speed) entries.
#[derive(Debug)]
pub struct Config {
    /// Seconds between two temperature polls.
    pub poll_time: u64,
    /// Seconds a speed decrease is held back before it is committed.
    pub slow_delay: u64,
    /// The step table.
    pub fan: Vec<(u8, u8)>,
}

/// Why a configuration is refused.
#[derive(Clone, Copy, PartialEq, Eq, Structural, Debug)]
pub enum ConfigError {
    /// A speed above the range limit, or a repeated temperature key.
    ConfigInvalid,
}

impl Config {
    /// A configuration is well formed exactly when its step table is.
    pub open spec fn wf(self) -> bool {
        table_wf(self.fan@)
    }

    /// Builds a validated configuration: accepted exactly when every speed in
    /// the table is within range and the temperature keys are distinct.
    pub fn new(poll_time: u64, slow_delay: u64, fan: Vec<(u8, u8)>) -> (r: Result<
        Config,
        ConfigError,
    >)
        ensures
            r is Ok <==> table_wf(fan@),
            r matches Ok(c) ==> {
                &&& c.poll_time == poll_time
                &&& c.slow_delay == slow_delay
                &&& c.fan@ == fan@
                &&& c.wf()
            },
            r is Err ==> r == Result::<Config, ConfigError>::Err(ConfigError::ConfigInvalid),
    {
        let n = fan.len();
        let mut i: usize = 0;
        while i < n
            invariant
                n == fan@.len(),
                i <= n,
                forall|k: int| 0 <= k < i ==> (#[trigger] fan@[k]).1 <= MAX_SPEED,
                forall|a: int, b: int|
                    0 <= a < b < i ==> (#[trigger] fan@[a]).0 != (#[trigger] fan@[b]).0,
            decreases n - i,
        {
            let entry: (u8, u8) = fan[i];
            if entry.1 > MAX_SPEED {
                return Err(ConfigError::ConfigInvalid);
            }
            let mut j: usize = 0;
            while j < i
                invariant
                    n == fan@.len(),
                    j <= i < n,
                    entry == fan@[i as int],
                    forall|k: int| 0 <= k < j ==> (#[trigger] fan@[k]).0 != entry.0,
                decreases i - j,
            {
                if fan[j].0 == entry.0 {
                    return Err(ConfigError::ConfigInvalid);
                }
                j = j + 1;
            }
            i = i + 1;
        }
        Ok(Config { poll_time, slow_delay, fan })
    }
}

impl Default for Config {
    /// The built-in fallback used when no configuration is supplied:
    /// steps {55:10, 60:55, 65:100}, a 5 second poll, a 10 second cooldown.
    fn default() -> (c: Config)
        ensures
            c.poll_time == 5,
            c.slow_delay == 10,
            c.fan@ == seq![(55u8, 10u8), (60u8, 55u8), (65u8, 100u8)],
            c.wf(),
    {
        let mut fan: Vec<(u8, u8)> = Vec::new();
        fan.push((55, 10));
        fan.push((60, 55));
        fan.push((65, 100));
        proof {
            assert(fan@ =~= seq![(55u8, 10u8), (60u8, 55u8), (65u8, 100u8)]);
        }
        Config { poll_time: default_poll(), slow_delay: default_delay(), fan }
    }
}

/// Poll cadence, in seconds, used when the configuration names none.
pub fn default_poll() -> (r: u64)
    ensures
        r == 5,
{
    5
}

/// Cooldown, in seconds, used when the configuration names none.
pub fn default_delay() -> (r: u64)
    ensures
        r == 10,
{
    10
}

} // verus!
