//! The two status flags of the embedded controller and the bounded wait on
//! them.
//!
//! The wait is a decision taken once per probe of the status byte: the caller
//! reads the command port and its clock, and is told whether the wait is over,
//! has to go on, or has failed.

use vstd::prelude::*;
use crate::consts::COMMAND_FLAG_MAX_WAIT_MS;
use crate::error::CommandFlagWaitTimedOutError;

verus! {

/// A flag in the status byte that is read from the command port.
#[derive(Debug, Clone, Copy, PartialEq, Eq, Structural)]
pub enum Flag {
    /// Output buffer full: the controller has a byte ready to be read.
    OBF,
    /// Input buffer full: the controller has not yet taken the last byte written.
    IBF,
}

/// What a wait does after one probe of the status byte.
#[derive(Debug, Clone, Copy, PartialEq, Eq, Structural)]
pub enum WaitStep {
    /// The flag is in the wanted state: the wait is over.
    Done,
    /// The flag is not there yet and time is left: probe again.
    Again,
}

impl Flag {
    /// The flag's bit in the status byte.
    pub open spec fn mask(self) -> u8 {
        match self {
            Flag::OBF => 0x1u8,
            Flag::IBF => 0x2u8,
        }
    }

    /// Whether the flag is on in a status byte: all bits of its mask are set.
    pub open spec fn is_on(self, output: u8) -> bool {
        output & self.mask() == self.mask()
    }

    /// The decision after one probe. A status that shows the wanted state ends
    /// the wait whatever the clock says; otherwise the wait fails once more
    /// than the allowed time has gone by.
    pub open spec fn wait_step(self, on: bool, status: u8, elapsed_ms: u128) -> Result<
        WaitStep,
        CommandFlagWaitTimedOutError,
    > {
        if self.is_on(status) == on {
            Ok(WaitStep::Done)
        } else if COMMAND_FLAG_MAX_WAIT_MS < elapsed_ms {
            Err(CommandFlagWaitTimedOutError { flag: self, on })
        } else {
            Ok(WaitStep::Again)
        }
    }

    /// Whether a probe leaves the wait going: the flag is not in the wanted
    /// state and the allowed time has not been passed.
    pub open spec fn keeps_waiting(self, on: bool, status: u8, elapsed_ms: u128) -> bool {
        self.is_on(status) != on && elapsed_ms <= COMMAND_FLAG_MAX_WAIT_MS
    }

    /// The number of probes, from the first of `probes` on, that leave the
    /// wait going: each a status byte with the time gone by when it was read.
    pub open spec fn probes_passed(self, on: bool, probes: Seq<(u8, u128)>) -> nat
        decreases probes.len(),
    {
        if probes.len() == 0 || !self.keeps_waiting(on, probes[0].0, probes[0].1) {
            0
        } else {
            1 + self.probes_passed(on, probes.subrange(1, probes.len() as int))
        }
    }

    /// The outcome of a wait that sees `probes` in order: the index of the
    /// probe that showed the wanted state, `None` if the probes ran out with
    /// the wait still going, or the error of the probe at which it gave up.
    pub open spec fn wait_outcome(self, on: bool, probes: Seq<(u8, u128)>) -> Result<
        Option<nat>,
        CommandFlagWaitTimedOutError,
    > {
        let n = self.probes_passed(on, probes);
        if n >= probes.len() {
            Ok(None)
        } else if self.is_on(probes[n as int].0) == on {
            Ok(Some(n))
        } else {
            Err(CommandFlagWaitTimedOutError { flag: self, on })
        }
    }

    /// The flag's bit in the status byte.
    pub fn flag(&self) -> (mask: u8)
        ensures
            mask == self.mask(),
            *self == Flag::OBF ==> mask == 1,
            *self == Flag::IBF ==> mask == 2,
    {
        match self {
            Flag::OBF => 0x1,
            Flag::IBF => 0x2,
        }
    }

    /// Is the flag on in the given status byte?
    pub fn on(&self, output: u8) -> (set: bool)
        ensures
            set == self.is_on(output),
    {
        let flag: u8 = self.flag();
        output & flag == flag
    }

    /// One probe of a wait for the flag to be on.
    pub fn wait_for_on(&self, status: u8, elapsed_ms: u128) -> (step: Result<
        WaitStep,
        CommandFlagWaitTimedOutError,
    >)
        ensures
            step == self.wait_step(true, status, elapsed_ms),
    {
        self.wait(true, status, elapsed_ms)
    }

    /// One probe of a wait for the flag to be off.
    pub fn wait_for_off(&self, status: u8, elapsed_ms: u128) -> (step: Result<
        WaitStep,
        CommandFlagWaitTimedOutError,
    >)
        ensures
            step == self.wait_step(false, status, elapsed_ms),
    {
        self.wait(false, status, elapsed_ms)
    }

    /// One probe of a wait for the flag to be in the state `on`: `status` is
    /// the byte just read from the command port, `elapsed_ms` the time since
    /// the wait began.
    pub fn wait(&self, on: bool, status: u8, elapsed_ms: u128) -> (step: Result<
        WaitStep,
        CommandFlagWaitTimedOutError,
    >)
        ensures
            step == self.wait_step(on, status, elapsed_ms),
            step matches Ok(WaitStep::Done) <==> self.is_on(status) == on,
            step matches Ok(WaitStep::Again) <==> self.keeps_waiting(on, status, elapsed_ms),
            step is Err <==> self.is_on(status) != on && elapsed_ms > COMMAND_FLAG_MAX_WAIT_MS,
            step matches Err(e) ==> e.flag == *self && e.on == on,
    {
        if self.on(status) == on {
            Ok(WaitStep::Done)
        } else if COMMAND_FLAG_MAX_WAIT_MS < elapsed_ms {
            Err(CommandFlagWaitTimedOutError::new(*self, on))
        } else {
            Ok(WaitStep::Again)
        }
    }

    /// Runs a wait over recorded probes, each a status byte with the time gone
    /// by when it was read, and stops at the first that ends it. `Ok(Some(i))`:
    /// probe `i` showed the wanted state. `Ok(None)`: the probes ran out with
    /// the wait still going. `Err`: the wait gave up.
    pub fn wait_over(&self, on: bool, probes: &Vec<(u8, u128)>) -> (outcome: Result<
        Option<usize>,
        CommandFlagWaitTimedOutError,
    >)
        ensures
            self.wait_outcome(on, probes@) == match outcome {
                Ok(Some(i)) => Ok(Some(i as nat)),
                Ok(None) => Ok(None),
                Err(e) => Err(e),
            },
    {
        let mut i: usize = 0;
        while i < probes.len()
            invariant
                i <= probes.len(),
                forall|j: int|
                    0 <= j < i ==> self.keeps_waiting(on, (#[trigger] probes@[j]).0, probes@[j].1),
            decreases probes.len() - i,
        {
            let probe: (u8, u128) = probes[i];
            let step = self.wait(on, probe.0, probe.1);
            proof {
                if !(step matches Ok(WaitStep::Again)) {
                    lemma_probes_passed(*self, on, probes@, i as nat);
                }
            }
            match step {
                Ok(WaitStep::Done) => {
                    return Ok(Some(i));
                },
                Err(e) => {
                    return Err(e);
                },
                Ok(WaitStep::Again) => {},
            }
            i += 1;
        }
        proof {
            lemma_probes_passed(*self, on, probes@, i as nat);
        }
        Ok(None)
    }
}

/// The two flags are single bits of the status byte, each on or off
/// whatever the other is: the output flag is the lowest bit, the input flag
/// the one above it.
pub proof fn lemma_flags_are_bits(status: u8)
    ensures
        Flag::OBF.is_on(status) <==> status % 2 == 1,
        Flag::IBF.is_on(status) <==> (status / 2) % 2 == 1,
{
    assert((status & 0x1u8 == 0x1u8) <==> status % 2 == 1) by (bit_vector);
    assert((status & 0x2u8 == 0x2u8) <==> (status / 2) % 2 == 1) by (bit_vector);
}

/// A wait whose first probe already shows the wanted state ends at that
/// probe: nothing after it is looked at, and the clock does not matter.
pub proof fn lemma_wait_ends_at_first_match(flag: Flag, on: bool, probes: Seq<(u8, u128)>)
    requires
        probes.len() > 0,
        flag.is_on(probes[0].0) == on,
    ensures
        flag.probes_passed(on, probes) == 0,
        flag.wait_outcome(on, probes) == Ok::<Option<nat>, CommandFlagWaitTimedOutError>(Some(0)),
{
}

/// A wait that never sees the wanted state, and whose last probe is the first
/// one read after the allowed time, fails at that probe, and the error names
/// the flag and the state that were waited for.
pub proof fn lemma_wait_times_out(flag: Flag, on: bool, probes: Seq<(u8, u128)>)
    requires
        probes.len() > 0,
        forall|i: int| 0 <= i < probes.len() ==> flag.is_on((#[trigger] probes[i]).0) != on,
        forall|i: int|
            0 <= i < probes.len() - 1 ==> (#[trigger] probes[i]).1 <= COMMAND_FLAG_MAX_WAIT_MS,
        probes.last().1 > COMMAND_FLAG_MAX_WAIT_MS,
    ensures
        flag.probes_passed(on, probes) == probes.len() - 1,
        flag.wait_outcome(on, probes) == Err::<Option<nat>, CommandFlagWaitTimedOutError>(
            CommandFlagWaitTimedOutError { flag, on },
        ),
{
    assert(flag.is_on(probes[probes.len() - 1].0) != on);
    lemma_probes_passed(flag, on, probes, (probes.len() - 1) as nat);
}

/// If the first `n` probes leave the wait going and the next one does not, or
/// there is no next one, then `n` probes are passed.
pub proof fn lemma_probes_passed(flag: Flag, on: bool, probes: Seq<(u8, u128)>, n: nat)
    requires
        n <= probes.len(),
        forall|i: int| 0 <= i < n ==> flag.keeps_waiting(on, (#[trigger] probes[i]).0, probes[i].1),
        n < probes.len() ==> !flag.keeps_waiting(on, probes[n as int].0, probes[n as int].1),
    ensures
        flag.probes_passed(on, probes) == n,
    decreases n,
{
    if n > 0 {
        let rest = probes.subrange(1, probes.len() as int);
        assert(flag.keeps_waiting(on, probes[0].0, probes[0].1));
        assert forall|i: int| 0 <= i < n - 1 implies flag.keeps_waiting(
            on,
            (#[trigger] rest[i]).0,
            rest[i].1,
        ) by {
            assert(rest[i] == probes[i + 1]);
        }
        if n < probes.len() {
            assert(rest[n - 1] == probes[n as int]);
        }
        lemma_probes_passed(flag, on, rest, (n - 1) as nat);
    }
}

} // verus!
