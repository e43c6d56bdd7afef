//! Binding of the timing program to one coprocessor lane and one pin.

use vstd::prelude::*;
use crate::timing::{ClockDivisor, clock_in_range, divisor_fixed};

verus! {

/// Instruction slots of the coprocessor's program memory.
pub const PROGRAM_SLOTS: u8 = 32;

/// Why a binding could not be made.
#[derive(Clone, Copy, Debug, PartialEq, Eq, Structural)]
pub enum BindError {
    /// The timing program did not fit into the coprocessor's program memory.
    NoProgramSpace,
    /// The system clock gives no divider that the coprocessor can hold.
    ClockOutOfRange,
}

/// Lifecycle of a binding.
#[derive(Clone, Copy, Debug, PartialEq, Eq, Structural)]
pub enum EngineState {
    /// Configured, not clocking.
    Stopped,
    /// Clocking, accepting writes to the transmit queue.
    Running,
}

/// Whether a program of `len` instructions placed at `offset` lies inside the
/// coprocessor's program memory.
pub open spec fn program_fits(offset: nat, len: nat) -> bool {
    0 < len && offset + len <= PROGRAM_SLOTS as nat
}

/// The association of the timing program, its lane's pin and its clock
/// divisor. It is made once and is never copied: the transmitter that owns it
/// is the only writer of its lane.
#[derive(Debug)]
pub struct DmxPIO {
    pin: u8,
    program_offset: u8,
    program_len: u8,
    divisor: ClockDivisor,
    state: EngineState,
}

impl DmxPIO {
    pub closed spec fn spec_pin(&self) -> u8 {
        self.pin
    }

    pub closed spec fn spec_program_offset(&self) -> u8 {
        self.program_offset
    }

    pub closed spec fn spec_program_len(&self) -> u8 {
        self.program_len
    }

    pub closed spec fn spec_divisor(&self) -> ClockDivisor {
        self.divisor
    }

    pub closed spec fn spec_state(&self) -> EngineState {
        self.state
    }

    /// A binding holds a program inside program memory and a usable divider.
    pub closed spec fn wf(&self) -> bool {
        program_fits(self.program_offset as nat, self.program_len as nat) && self.divisor.int >= 1
    }

    /// Binds the timing program to `pin` for a system clock of `clock_hz`.
    /// `installed` is where the program of `program_len` instructions was
    /// placed in program memory, or `None` where it could not be installed.
    /// The binding comes back running.
    pub fn new(pin: u8, installed: Option<u8>, program_len: u8, clock_hz: u32) -> (r: Result<
        DmxPIO,
        BindError,
    >)
        ensures
            r matches Err(BindError::NoProgramSpace) <==> (installed matches Some(off)
                ==> !program_fits(off as nat, program_len as nat)),
            r matches Err(BindError::ClockOutOfRange) <==> (installed matches Some(off)
                && program_fits(off as nat, program_len as nat) && !clock_in_range(
                clock_hz as nat,
            )),
            r matches Ok(e) ==> {
                &&& e.wf()
                &&& installed == Some(e.spec_program_offset())
                &&& e.spec_program_len() == program_len
                &&& e.spec_pin() == pin
                &&& e.spec_divisor().fixed() == divisor_fixed(clock_hz as nat)
                &&& e.spec_state() == EngineState::Running
            },
    {
        let offset = match installed {
            None => {
                return Err(BindError::NoProgramSpace);
            },
            Some(off) => off,
        };
        if program_len == 0 || offset as u16 + program_len as u16 > PROGRAM_SLOTS as u16 {
            return Err(BindError::NoProgramSpace);
        }
        match ClockDivisor::for_clock(clock_hz) {
            None => Err(BindError::ClockOutOfRange),
            Some(divisor) => {
                let stopped = DmxPIO {
                    pin,
                    program_offset: offset,
                    program_len,
                    divisor,
                    state: EngineState::Stopped,
                };
                Ok(stopped.start())
            },
        }
    }

    /// Moves the binding to the running state.
    fn start(self) -> (r: DmxPIO)
        ensures
            r == (DmxPIO { state: EngineState::Running, ..self }),
    {
        DmxPIO { state: EngineState::Running, ..self }
    }

    /// The GPIO pin that the lane drives.
    pub fn pin(&self) -> (r: u8)
        ensures
            r == self.spec_pin(),
    {
        self.pin
    }

    /// Where the timing program lies in program memory.
    pub fn program_offset(&self) -> (r: u8)
        ensures
            r == self.spec_program_offset(),
    {
        self.program_offset
    }

    /// The clock divider the lane is configured with.
    pub fn divisor(&self) -> (r: ClockDivisor)
        ensures
            r == self.spec_divisor(),
    {
        self.divisor
    }

    /// Whether the lane is clocking.
    pub fn is_running(&self) -> (r: bool)
        ensures
            r == (self.spec_state() == EngineState::Running),
    {
        match self.state {
            EngineState::Running => true,
            EngineState::Stopped => false,
        }
    }
}

} // verus!
