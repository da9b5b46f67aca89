//! Classification of the output of the system `ping` tool.
//!
//! Every supported platform prints its probe results in a grammar of its
//! own. This library turns one line of that output into a typed result,
//! a latency or a timeout, picks the platform's grammar and command-line
//! arguments from the name of the host's operating system, and decides,
//! event by event, what a running probe session does next.

pub mod text;
pub mod decimal;
pub mod model;
pub mod capture;
pub mod parser;
pub mod linux;
pub mod macos;
pub mod android;
pub mod windows;
pub mod platform;
pub mod dispatch;
pub mod session;

pub use model::{Latency, PingError, PingResult};
pub use dispatch::{plan, plan_for, ProbePlan};
pub use parser::{Parser, Pinger, SimplePinger};
pub use platform::Platform;
