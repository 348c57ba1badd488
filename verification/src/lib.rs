//! Decision core of a small HTTP file-upload service.
//!
//! The service accepts `multipart/form-data` uploads, stores every part that
//! carries a filename in the working directory, and answers with a short
//! confirmation. Everything that waits on the network or the disk lives
//! outside this crate; what is decided between two such waits lives here and
//! is verified: the size limiter, the boundary check, the per-request upload
//! state machine, the replies, and the handling of the command line.
pub mod config;
pub mod content_type;
pub mod decimal;
pub mod directory;
pub mod error;
pub mod guarantees;
pub mod limit;
pub mod machine;
pub mod protocol;
pub mod reply;
pub mod session;
