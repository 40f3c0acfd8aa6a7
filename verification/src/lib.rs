//! The decisions of an AUv2 (Audio Unit version 2) plugin wrapper: bus layouts, stream formats,
//! properties, parameters, render cycles and MIDI, as verified functions on plain values.
//!
//! Sample values, sample rates and parameter values are carried as the bit patterns of their IEEE
//! 754 encodings. Addresses that the host hands out (units, callbacks, user data) are carried as
//! `usize`, with zero for a null pointer.
#![allow(non_snake_case)]

pub mod automation;
pub mod buffers;
pub mod class_info;
pub mod codes;
pub mod context;
pub mod cycle;
pub mod cycle_laws;
pub mod dispatch;
pub mod editor;
pub mod event;
pub mod format;
pub mod host;
pub mod layout;
pub mod listeners;
pub mod metadata;
pub mod midi;
pub mod param_info;
pub mod params;
pub mod plugin;
pub mod property;
pub mod property_laws;
pub mod queue;
pub mod registry;
pub mod render;
pub mod render_laws;
pub mod sort;
pub mod transport;
pub mod version;
pub mod wrapper;
