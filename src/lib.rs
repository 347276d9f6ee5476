//! A typed call-dispatch layer for a syscall-style boundary.
//!
//! Handlers are identified by a number and called with a slice of machine
//! words; the words are decoded into the handler's typed arguments and its
//! result is encoded back into one signed word.
pub mod codec;
pub mod laws;
pub mod registry;
pub mod service;
pub mod table;
pub mod unifn;

pub use codec::{Address, FromArgs, ToIsize, ToUsize};
pub use registry::{Registry, ServiceWrapper};
pub use service::{register, Service, SysCallHandler, WordFn};
pub use table::Table;
pub use unifn::UniFn;
