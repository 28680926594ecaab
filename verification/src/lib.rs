//! A package-manager front end's core: the commands each distribution's
//! package manager is driven with, the parsers that turn their output into
//! package and repository lists, the launch plan for privileged commands, and
//! the state machine of the user interface that decides what runs when.
pub mod text;
pub mod app;
pub mod backend;
pub mod detect;
pub mod selection;
