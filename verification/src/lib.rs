//! Deployment logic for a fleet of hosts: what is built for a host, which
//! commands bring the result onto it, in which order they run, and how a
//! failed activation is rolled back.
//!
//! Nothing in this crate touches the outside world. A driver asks a
//! [`Deploy`] for its next [`Request`], performs it, and hands the [`Reply`]
//! back; every decision in between is made, and proved, here.

pub mod action;
pub mod command;
pub mod deploy;
pub mod dispatch;
pub mod fleetdata;
pub mod generation;
pub mod invocation;
pub mod laws;
pub mod text;

pub use action::{Action, BuildSystems, PackageAction, Subcommand, UploadAction};
pub use command::{Command, CommandView};
pub use deploy::{Abort, Control, Deploy, Event, Phase, Policy, Reply, Request};
pub use dispatch::Host;
pub use fleetdata::{FleetDataVersion, HostData};
pub use generation::{
    get_current_generation, parse_line, parse_listing, select_current, Generation, InspectError,
    Line, Listing, Warning,
};
