//! Decision logic of a two-phase licence-manager reinstall tool.
use vstd::prelude::*;

pub mod launch;
pub mod decimal;
pub mod clock;
pub mod reboot;
pub mod age;
pub mod process;
pub mod script;
pub mod before;
pub mod after;
