//! The decisions and computations of `tack`, a launcher for Paper servers that
//! manages the ahead-of-time (AOT) cache of the Java virtual machine.

pub mod aot;
pub mod args;
pub mod background;
pub mod classpath;
pub mod errors;
pub mod launcher;
pub mod outside;
pub mod path;
pub mod promises;
pub mod run;
pub mod text;
pub mod util;
