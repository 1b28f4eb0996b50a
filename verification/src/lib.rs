//! Shipping the log of a device, line by line, to a collector, and the
//! tooling around it.
//!
//! The pipeline: an agent on the device relays each line its log source
//! produces over one connection ([`agent`], [`line`]); the collector
//! splits what arrives into lines again ([`splitter`]) and, one session
//! per connection ([`session`]), appends them to the sink of the peer
//! ([`sink`]). What holds of the whole is proved in [`pipeline`].
//!
//! The tooling: [`bridge`] plans what is done to a device over `adb`,
//! [`toolchain`] finds what builds the agent, and [`report`] lays out what
//! a device printed as an HTML page.
//!
//! Nothing here touches a file, a socket or a process. The state machines
//! name the next operation and take its outcome; the caller performs it.

pub mod agent;
pub mod bridge;
pub mod line;
pub mod pipeline;
pub mod report;
pub mod session;
pub mod sink;
pub mod splitter;
pub mod toolchain;
