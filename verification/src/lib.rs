//! Registration of an externally stored profile in the configuration of a
//! mod manager.
//!
//! A profile is registered under a name, with the path of its definition and
//! the directory that its mods go to. Each of the three is given by the
//! caller or settled with the user; the path has to hold a profile, and a
//! name that the user enters has to be one that no registered profile bears,
//! the case of ASCII letters set aside.
//!
//! The library decides and keeps the configuration; it neither prompts nor
//! touches the file system. [`Session`] says step by step what is wanted of
//! the collaborators, and [`import()`] runs a whole import over the replies
//! they gave.

pub mod config;
pub mod error;
pub mod import;
pub mod laws;
pub mod names;
pub mod paths;
pub mod session;

pub use config::{Config, ProfileItem, NAME_TAKEN};
pub use error::{ImportError, NOT_A_PROFILE, NO_PATH_SELECTED};
pub use import::import;
pub use names::eq_ignore_ascii_case;
pub use session::{Reply, Request, Session};
