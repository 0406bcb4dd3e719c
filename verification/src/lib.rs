//! Session lifecycle and connection management for a split client/server
//! game runtime.
//!
//! A session is made of up to two loops: a presentation loop that runs at
//! the host's own cadence and a fixed-tick server loop. Either loop pumps
//! the transport's callbacks once per tick, applies the connection events
//! that became visible, does its work and looks at one shared shutdown
//! flag. This crate holds the rules of that arrangement as plain state
//! machines over plain values; performing the transport calls, spawning
//! threads and sleeping is left to the program that drives them.
//!
//! * [`connection`]: connection states, peers and transport events.
//! * [`tracker`]: the per-peer state machine.
//! * [`inbox`]: pending connection events, polled one at a time.
//! * [`dispatch`]: what a loop does with the events it polls.
//! * [`schedule`]: tick rate, tick period and pacing.
//! * [`tick`]: the order of work inside a tick and the stop rule.
//! * [`shutdown`]: the shared shutdown flag.
//! * [`session`]: topology, startup order and shutdown order.
pub mod connection;
pub mod dispatch;
pub mod inbox;
pub mod schedule;
pub mod session;
pub mod shutdown;
pub mod tick;
pub mod tracker;
