//! The decision core of a per-session JDK version manager.
//!
//! The manager keeps one directory per JDK major under a cache root, installs
//! a JDK on demand from a remote archive, and lets each terminal session
//! select its current JDK through a symbolic link of its own. This crate
//! holds every decision of the manager and none of its input and output: it
//! is told what was read from the disk and how each step ended, and it says
//! what is installed, which step comes next, and where each path lies.
//!
//! - [`release`] reads the Java version from the `release` file of a JDK.
//! - [`registry`] says which majors are installed and what they report. A
//!   directory counts as installed only if it holds the completion marker.
//! - [`install`] is the download and extraction pipeline: a machine that
//!   writes the completion marker after all else.
//! - [`activation`] finds the link of a session, reads it, and replaces it
//!   without ever leaving the session without a link.
//! - [`model`] and [`sessions`] state what the steps do to the disk and
//!   prove the laws of the pipeline and of activation.
//! - [`paths`], [`text`] and [`scan`] are the text routines beneath.

pub mod activation;
pub mod error;
pub mod install;
pub mod model;
pub mod paths;
pub mod registry;
pub mod release;
pub mod scan;
pub mod sessions;
pub mod text;

pub use activation::{get_current_jdk, get_symlink_location, symlink_jdk_path};
pub use install::{get_jdk_path, update_jdk};
pub use registry::{get_all_jdk_majors, get_jdk_version, map_available_jdk_versions};
