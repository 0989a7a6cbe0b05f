//! A chat bot that answers commands addressed to Zundamon: the text is
//! normalized, matched against a small command grammar, and each command is
//! answered with a canned reply or a spoken sentence.

pub mod bot;
pub mod command;
pub mod connector;
pub mod speakers;
pub mod text;
