//! Sorting of generated images by the tool that made them.
//!
//! The crate holds the decisions of a sorter that reads the metadata text of
//! an image, tells which generator wrote it, and places the file in a folder
//! named after that generator beside the file itself. Reading directories,
//! running the metadata probe and touching files are left to the caller: the
//! crate says which step comes next and takes the step's result back.

pub mod origin;
pub mod paths;
pub mod probe;
pub mod report;
pub mod route;
pub mod scan;
pub mod tally;
