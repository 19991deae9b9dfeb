//! Locates the dynamic libraries that a package's build scripts link against
//! and places them beside the package's build output.
//!
//! `interpret::interpret` reads the build tool's decoded event stream and
//! yields the directory that receives the libraries and one request per
//! linked library. `materialize::Materializer` then decides, step by step,
//! where each library is found and how it is copied, leaving the filesystem
//! work itself to the caller.
//!
//! Policies where the build tool's conventions leave a choice:
//! - libraries go into the `deps` directory beside the package's artifact;
//! - of several artifact events for the package, the first one counts;
//! - a library's directories are tried in the order in which they were first
//!   named, and the first one holding the library is used;
//! - a chain of symbolic links that returns to a source already in it, or
//!   that is longer than `materialize::MAX_LINK_DEPTH`, is an error.
mod paths;
pub mod message;
pub mod interpret;
pub mod materialize;
