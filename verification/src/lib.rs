//! Startup logic of the nfo-viewer desktop shell: which command-line argument
//! names the file to open, how the shell is set up, and how a failed start is
//! reported.

pub mod args;
pub mod failure;
pub mod startup;
