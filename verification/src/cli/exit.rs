//! Stable process exit codes shared by the CLIs (scripts depend on these).

use vstd::prelude::*;

verus! {

pub const SUCCESS: i32 = 0;
pub const INTERNAL: i32 = 1;
pub const CONFIG: i32 = 2;
pub const MOUNT: i32 = 3;
pub const BIND: i32 = 4;

} // verus!
