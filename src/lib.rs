//! A line-oriented command interpreter with a virtual working directory, and
//! the decision logic of the interactive terminal front-ends it can launch.
pub mod builtins;
pub mod command;
pub mod counter;
pub mod event;
pub mod json;
pub mod nav;
pub mod number;
pub mod path;
pub mod prompt;
pub mod session;
pub mod text;
pub mod timer;
