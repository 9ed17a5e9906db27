//! ScorpioFS core: configuration resolution and validation, workspace
//! bookkeeping and Antares path planning, with their contracts proved.

pub mod antares;
pub mod cli;
pub mod daemon;
pub mod doctor;
pub mod manager;
pub mod mount_flow;
pub mod mount_tasks;
pub mod server;
pub mod text;
pub mod util;

pub use antares::{AntaresConfig, AntaresPaths};
