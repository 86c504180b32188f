//! Sorting media files into a date hierarchy.
//!
//! A file's capture time is taken from its embedded metadata, or from its
//! modification time where there is none. From that time, an optional
//! brightness tag and the file's extension, a destination below a root is
//! planned. The walk over a directory tree is a state machine: it issues
//! commands and queries about the filesystem and is told the answers, so that
//! every decision is made here and only the filesystem access is the
//! caller's.

pub mod calendar;
pub mod embedded;
pub mod metadata;
pub mod paths;
pub mod planner;
pub mod relocate;
pub mod walk;
