//! Fan regulation for AMD graphics cards.
//!
//! The crate holds the decisions of a fan controller: how the text of a
//! sensor file is read, where a temperature falls on a fan curve, and in
//! what order the device is switched, sampled, driven and handed back.
//! Every function here is proved against its contract; touching the file
//! system, sleeping and arithmetic on real numbers are left to the caller.

pub mod amdgpu;
pub mod control;
pub mod regulator;
pub mod text;
