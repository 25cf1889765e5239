//! A software raster engine for SVGA-class analog video timing.
//!
//! The engine generates a raster signal one scanline at a time: a hardware
//! line timer drives the horizontal state machine, a second timer drives the
//! shock absorber that corrects timing drift, and a lowest-priority
//! maintenance step fills the next scanline buffer while the current one is
//! streamed out. This crate holds the verified core of that engine: the
//! timing descriptors, the pixel primitives, the scanline-buffer handoff and
//! the per-event state transitions. The hardware itself (timers, transfer
//! engine, output pins) appears only as the events fed in and the actions
//! handed back.

pub mod buffer;
pub mod engine;
pub mod pixels;
pub mod timing;
