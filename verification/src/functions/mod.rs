//! The builtins.  Each but the dispatcher takes arguments that were
//! evaluated before.
pub mod boolean;
pub mod dispatch;
pub mod list;
pub mod logic;
pub mod string;

pub use dispatch::dispatch_builtins;
