//! Runs an executable image that is held in memory, on Linux, without writing
//! it to a file: the image is copied into an anonymous memory file and the
//! process is replaced through the path `/proc/self/fd/<N>` of that file.
//!
//! The library holds every decision of that procedure and none of its system
//! calls. [`run_with_options`] starts a [`Launch`], which names one system
//! call at a time ([`Launch::request`]) and is told what it returned
//! ([`Launch::advance`]), until it names the result of the run.

pub mod cstring;
pub mod error;
pub mod image;
pub mod launch;
pub mod options;
pub mod path;
pub mod runs;
pub mod vector;

pub use cstring::MAX_STRING_LEN;
pub use error::RunError;
pub use image::validate_elf_header;
pub use launch::{run, run_with_options, Launch, Reply, Request, Stage};
pub use options::RunOptions;
pub use path::{build_path, EXEC_PATH_LEN};
pub use vector::{prepare_argv, prepare_envp, PreparedArgs, PreparedEnv, MAX_ARGS, MAX_ENV};
