//! Idempotent filesystem operations: create and remove files and directories,
//! and take "it is already so" for success.
//!
//! The operations decide; they do not touch the filesystem. Each is a function
//! from an event to a step (see `protocol`): it names the one call that the
//! host is to make next, is called again with the host's reply, and at the end
//! returns its result. Which failures an operation takes for success is in
//! `policy`; what holds of whole runs is in `laws`.

pub mod class;
pub mod laws;
pub mod ops;
pub mod permit;
pub mod policy;
pub mod protocol;
pub mod run;

pub use class::classify;
pub use class::ErrorClass;
pub use class::Failure;
pub use ops::is_dir;
pub use ops::mkdir;
pub use ops::mkdir_p;
pub use ops::mkf;
pub use ops::mkf_p;
pub use ops::rm;
pub use ops::rmdir;
pub use ops::rmdir_r;
pub use ops::rmf;
pub use policy::is_permitted;
pub use policy::Operation;
pub use protocol::Event;
pub use protocol::Reply;
pub use protocol::Request;
pub use protocol::Step;
