//! Test-support toolkit for driving executables as subprocesses: a pure
//! path-reconciliation algorithm and a harness that configures a child
//! process, tracks its lifecycle, and validates its captured outcome.

pub mod command;
pub mod utils;

pub use command::ChildState;
pub use command::Command;
pub use command::ExitOutcome;
pub use command::HarnessError;
pub use utils::PathExt;
pub use utils::PurePath;
