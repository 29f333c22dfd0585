//! The decisions of a terminal bridge for a desktop application.
//!
//! The bridge runs a shell for a user interface: it starts the shell on
//! pipes or behind a pseudo-terminal, pumps the shell's output to an event
//! sink as decoded text, writes the user's input to it, and watches for its
//! end. This crate holds every decision of that work and proves what each
//! one yields. It performs no input or output itself: its functions take
//! what the operating system answered and return what to do next.
//!
//! - [`session`]: the registry of the one running session and the
//!   operations of the user interface on it.
//! - [`launcher`]: launching a shell behind a pseudo-console, with account
//!   of every handle.
//! - [`pump`]: from the bytes of an output stream to the text that is published.
//! - [`codepage`]: decoding by the console's codepage.
//! - [`command`]: from a command line to the way it is run.
//! - [`path`]: the working directory and the search path of spawned shells.
//! - [`error`]: the failures that are reported.
//! - [`text`]: the operations on text that the others build on.
//! - [`files`], [`modules`], [`packages`], [`media`]: the rules of the
//!   application's commands on files, modules, packages and images.

pub mod codepage;
pub mod command;
pub mod error;
pub mod files;
pub mod launcher;
pub mod media;
pub mod modules;
pub mod packages;
pub mod path;
pub mod pump;
pub mod session;
pub mod text;
