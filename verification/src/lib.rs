//! A verified frame-pipelining engine for a double- (or triple-) buffered
//! swap chain driven by an explicit GPU API.
//!
//! The CPU records and submits work for frame N+1 while the GPU may still be
//! consuming frame N's resources. A single monotonic fence is the only
//! synchronization primitive: every frame slot carries the fence value its
//! last submission will raise the fence to, and a slot may be reused only
//! once the fence has reached that value.
//!
//! The engine itself works on plain values. The native device, command
//! queue, swap chain and fence are collaborators driven from outside: the
//! library decides what to signal, what to wait for and what to record, and
//! the surrounding program performs those actions and hands the observed
//! fence and backbuffer values back in.

pub mod barrier;
pub mod command_line;
pub mod commands;
pub mod dx_sample;
pub mod fence;
pub mod report;
pub mod resources;
pub mod sample;
pub mod window_class_id;
