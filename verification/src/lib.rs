//! A minimal turn-based combat simulator.
//!
//! Two combatants exchange blows until one's health falls below zero. The
//! [`combatant`] module holds the fighter model: attributes, name validation,
//! and the resolution of a single hit with its defence mitigation and sticky
//! death flag. The [`battlefield`] module runs the alternating turn loop to a
//! terminal outcome and reports the full health trajectory of both sides.

pub mod battlefield;
pub mod combatant;
