//! Motion-control core of a machine controller that drives stepper axes
//! through pulse-train outputs.
//!
//! The crate holds what such a controller decides, and nothing of how it
//! reaches its hardware:
//!
//! - [`mechanics`]: conversions between physical units and raw actuator
//!   units. Physical quantities are integers in thousandths of their unit;
//!   conversions into raw units round toward zero.
//! - [`io`]: mirrors of the hardware channels. A control cycle reads the
//!   status that the last bus cycle left in them and leaves the command for
//!   the next one. The caller copies between the mirrors and the bus.
//! - [`axis`]: one axis with its jog and position modes, the cyclic monitor
//!   with step-loss detection and soft limits, and the homing sequence.
//! - [`bbm_automatik_v2`] and [`schneidemaschine_v0`]: the two machines,
//!   each with its commands, its snapshots and its control cycle.
//! - [`notice`]: what a machine reports beside its state.
//!
//! Acceleration and braking are left to the ramp of the hardware: the
//! monitor hands a new target frequency to the channel and the channel
//! ramps to it. No operation steps a speed itself, so none needs a clock.
//!
//! No operation fails or panics. What a machine has to say or to send
//! (events to publish, reports to log, register writes) it appends to
//! queues of its own, which the caller empties after each call.
pub mod axis;
pub mod bbm_automatik_v2;
pub mod io;
pub mod mechanics;
pub mod notice;
pub mod schneidemaschine_v0;
