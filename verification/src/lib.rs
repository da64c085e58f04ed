//! The verified core of a layer-shell sound panel for PulseAudio.
//!
//! What the panel decides is decided here: which device a command addresses, how loud a volume
//! request may be, what the microphone meter shows, which events follow a backend call, and how the
//! widgets answer to those events. The surrounding program talks to PulseAudio, lays the GTK widgets
//! out, and hands the plain values that come back to these functions.
//!
//! Amplitudes are kept as integers: [`volume::Volume`] counts PulseAudio's own volume units and
//! [`level::Level`] counts attos, of which 10^18 make full scale.
pub mod connect;
pub mod controls;
pub mod device;
pub mod laws;
pub mod level;
pub mod listing;
pub mod meter;
pub mod panel;
pub mod reply;
pub mod session;
pub mod streams;
pub mod text;
pub mod volume;
pub mod window;
pub mod worker;
