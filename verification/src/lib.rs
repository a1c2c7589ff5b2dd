//! Typed access to the operating system's kernel interface: the uniform error
//! value, directory-entry enumeration, and atomic file replacement.
//!
//! The library computes and decides; it makes no system call itself. What a
//! call is handed is computed here, and what it returned is judged here.

pub mod dir;
pub mod env_;
pub mod err;
pub mod err_;
pub mod file;
pub mod mem;
pub mod poll;
pub mod process;
pub mod random;
pub mod signal;
pub mod str;
pub mod time;
pub mod util;

pub use env_::Environ;
pub use err_::Error;
pub use file::File;
pub use str::OsStr as Str;
