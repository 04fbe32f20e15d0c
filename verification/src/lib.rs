//! Client-side rules for a local tunnelling agent: building requests for its
//! REST API, reading its replies, and the decisions taken while the agent is
//! brought up. The crate performs no input or output of its own; callers carry
//! out the actions it asks for and report what happened.

pub mod bootstrap;
pub mod client;
pub mod error;
pub mod json;
pub mod launch;
pub mod platform;
pub mod text;
pub mod tunnel;

pub use bootstrap::{Action, Bootstrap, Event, Phase};
pub use client::{Method, Ngrok, Outcome, Request, Response};
pub use error::{ClientError, DecodeError};
pub use json::{Json, Member};
pub use launch::{find_file_in_path, Launch, Program};
pub use platform::{Download, Platform};
pub use tunnel::{BaseMetric, GaugeMetric, Metrics, Tunnel, TunnelConfig, Tunnels};
