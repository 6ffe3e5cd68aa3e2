//! Process-local mirrors of the hardware channels.
//!
//! The control step reads the status that the last bus cycle left in a
//! mirror and writes the command that the next bus cycle will carry. The
//! mirrors hold plain values; moving them to and from the bus is the
//! caller's part.
use vstd::prelude::*;

verus! {

/// One digital input as the last bus cycle read it; `None` is a failed read.
#[derive(Clone, Copy, Debug, PartialEq, Eq)]
pub struct DigitalInput {
    pub reading: Option<bool>,
}

impl DigitalInput {
    /// An input of which nothing has been read yet.
    pub fn new() -> (input: DigitalInput)
        ensures
            input.reading is None,
    {
        DigitalInput { reading: None }
    }

    /// The level that was read, or `default` where the read failed.
    pub open spec fn spec_value_or(self, default: bool) -> bool {
        match self.reading {
            Some(level) => level,
            None => default,
        }
    }

    /// The level that was read, or `default` where the read failed.
    pub fn value_or(&self, default: bool) -> (level: bool)
        ensures
            level == self.spec_value_or(default),
    {
        match self.reading {
            Some(level) => level,
            None => default,
        }
    }
}

/// The command structure of a pulse-train output channel.
#[derive(Clone, Copy, Debug, PartialEq, Eq)]
pub struct PtoCommand {
    /// The hardware ramp is bypassed: a new frequency takes effect at once.
    pub disable_ramp: bool,
    /// A travel to `target_counter_value` is to be started.
    pub go_counter: bool,
    /// Pulse frequency in Hz; in jog mode its sign is the direction.
    pub frequency_value: i32,
    /// Absolute target of a travel, as a raw counter value.
    pub target_counter_value: u32,
    /// The position counter is to be set to `set_counter_value`.
    pub set_counter: bool,
    pub set_counter_value: u32,
}

/// The status structure of a pulse-train output channel.
#[derive(Clone, Copy, Debug, PartialEq, Eq)]
pub struct PtoStatus {
    /// The travel has reached its target.
    pub select_end_counter: bool,
    /// The hardware ramp is changing the frequency.
    pub ramp_active: bool,
    pub input_t: bool,
    pub input_z: bool,
    pub error: bool,
    pub sync_error: bool,
    pub counter_underflow: bool,
    pub counter_overflow: bool,
    /// The position counter has been set as the command asked.
    pub set_counter_done: bool,
    /// The position counter; a position below zero wraps round.
    pub counter_value: u32,
}

/// The mirror of one pulse-train output channel.
#[derive(Clone, Copy, Debug, PartialEq, Eq)]
pub struct PulseTrainOutput {
    pub output: PtoCommand,
    pub input: PtoStatus,
}

/// The signed position that a raw counter value stands for.
pub open spec fn spec_counter_to_position(counter: u32) -> int {
    if counter <= i32::MAX {
        counter as int
    } else {
        counter - 0x1_0000_0000
    }
}

/// The raw counter value that stands for a signed position.
pub open spec fn spec_position_to_counter(position: i32) -> int {
    if position >= 0 {
        position as int
    } else {
        position + 0x1_0000_0000
    }
}

/// Reads a raw counter value as a signed position.
pub fn counter_to_position(counter: u32) -> (position: i32)
    ensures
        position == spec_counter_to_position(counter),
{
    if counter <= 0x7fff_ffff {
        counter as i32
    } else {
        ((counter as i64) - 0x1_0000_0000) as i32
    }
}

/// Writes a signed position as a raw counter value.
pub fn position_to_counter(position: i32) -> (counter: u32)
    ensures
        counter == spec_position_to_counter(position),
{
    if position >= 0 {
        position as u32
    } else {
        ((position as i64) + 0x1_0000_0000) as u32
    }
}

/// Every raw counter value stands for one signed position and the other way
/// round.
pub proof fn lemma_counter_position_round_trip(counter: u32, position: i32)
    ensures
        i32::MIN <= spec_counter_to_position(counter) <= i32::MAX,
        0 <= spec_position_to_counter(position) <= u32::MAX,
        spec_position_to_counter(spec_counter_to_position(counter) as i32) == counter,
        spec_counter_to_position(spec_position_to_counter(position) as u32) == position,
{
}

impl PtoCommand {
    /// The command of a channel at rest.
    pub open spec fn spec_idle() -> PtoCommand {
        PtoCommand {
            disable_ramp: false,
            go_counter: false,
            frequency_value: 0,
            target_counter_value: 0,
            set_counter: false,
            set_counter_value: 0,
        }
    }

    /// Immediate stop: ramp bypassed, no travel, frequency zero.
    pub open spec fn immediate_stop(self) -> PtoCommand {
        PtoCommand { disable_ramp: true, go_counter: false, frequency_value: 0, ..self }
    }

    /// Jog at `hz` through the hardware ramp, with no travel.
    pub open spec fn ramp_to(self, hz: i32) -> PtoCommand {
        PtoCommand { disable_ramp: false, go_counter: false, frequency_value: hz, ..self }
    }

    /// Start a travel to `target` at the frequency magnitude `hz`, through
    /// the hardware ramp.
    pub open spec fn travel_to(self, hz: i32, target: u32) -> PtoCommand {
        PtoCommand {
            disable_ramp: false,
            go_counter: true,
            frequency_value: hz,
            target_counter_value: target,
            ..self
        }
    }

    /// End of a travel: no travel, frequency zero.
    pub open spec fn travel_done(self) -> PtoCommand {
        PtoCommand { go_counter: false, frequency_value: 0, ..self }
    }

    /// Ask for the position counter to be set to zero.
    pub open spec fn counter_reset(self) -> PtoCommand {
        PtoCommand { set_counter: true, set_counter_value: 0, ..self }
    }

    /// Withdraw the request to set the position counter.
    pub open spec fn counter_reset_cleared(self) -> PtoCommand {
        PtoCommand { set_counter: false, ..self }
    }

    /// The command of a channel at rest.
    pub fn idle() -> (command: PtoCommand)
        ensures
            command == PtoCommand::spec_idle(),
    {
        PtoCommand {
            disable_ramp: false,
            go_counter: false,
            frequency_value: 0,
            target_counter_value: 0,
            set_counter: false,
            set_counter_value: 0,
        }
    }
}

impl PtoStatus {
    /// The status of a channel at rest at position zero.
    pub open spec fn spec_idle() -> PtoStatus {
        PtoStatus {
            select_end_counter: false,
            ramp_active: false,
            input_t: false,
            input_z: false,
            error: false,
            sync_error: false,
            counter_underflow: false,
            counter_overflow: false,
            set_counter_done: false,
            counter_value: 0,
        }
    }

    /// The status of a channel at rest at position zero.
    pub fn idle() -> (status: PtoStatus)
        ensures
            status == PtoStatus::spec_idle(),
    {
        PtoStatus {
            select_end_counter: false,
            ramp_active: false,
            input_t: false,
            input_z: false,
            error: false,
            sync_error: false,
            counter_underflow: false,
            counter_overflow: false,
            set_counter_done: false,
            counter_value: 0,
        }
    }
}

impl PulseTrainOutput {
    /// The signed position that the status reports.
    pub open spec fn spec_position(self) -> int {
        spec_counter_to_position(self.input.counter_value)
    }

    /// A channel at rest at position zero.
    pub fn new() -> (channel: PulseTrainOutput)
        ensures
            channel.output == PtoCommand::spec_idle(),
            channel.input == PtoStatus::spec_idle(),
    {
        PulseTrainOutput { output: PtoCommand::idle(), input: PtoStatus::idle() }
    }

    /// The status that the last bus cycle left.
    pub fn get_input(&self) -> (status: PtoStatus)
        ensures
            status == self.input,
    {
        self.input
    }

    /// The command that the next bus cycle will carry.
    pub fn get_output(&self) -> (command: PtoCommand)
        ensures
            command == self.output,
    {
        self.output
    }

    /// Replaces the command that the next bus cycle will carry.
    pub fn set_output(&mut self, command: PtoCommand)
        ensures
            final(self).output == command,
            final(self).input == old(self).input,
    {
        self.output = command;
    }

    /// Sets the frequency and leaves the rest of the command as it is.
    pub fn set_frequency(&mut self, hz: i32)
        ensures
            final(self).output == (PtoCommand { frequency_value: hz, ..old(self).output }),
            final(self).input == old(self).input,
    {
        self.output.frequency_value = hz;
    }

    /// The raw position counter.
    pub fn get_position(&self) -> (counter: u32)
        ensures
            counter == self.input.counter_value,
    {
        self.input.counter_value
    }

    /// The position counter as a signed position in pulses.
    pub fn position(&self) -> (pulses: i32)
        ensures
            pulses == self.spec_position(),
    {
        counter_to_position(self.input.counter_value)
    }

    /// Asks the hardware to set the position counter to zero.
    pub fn reset_position(&mut self)
        ensures
            final(self).output == old(self).output.counter_reset(),
            final(self).input == old(self).input,
    {
        self.output.set_counter = true;
        self.output.set_counter_value = 0;
    }

    /// Withdraws the request to set the position counter.
    pub fn clear_set_counter(&mut self)
        ensures
            final(self).output == old(self).output.counter_reset_cleared(),
            final(self).input == old(self).input,
    {
        self.output.set_counter = false;
    }
}

} // verus!
