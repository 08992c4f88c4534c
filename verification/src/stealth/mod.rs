pub mod patcher;
pub mod process;
pub mod search;

pub use patcher::BinaryPatcher;
pub use process::{ProcessGuard, ProcessRegistry};
