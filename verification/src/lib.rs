//! A small convenience layer over an external version-control tool: it turns
//! short subcommands (`commit`, `add`, `push`) into the literal argument
//! vector handed to the tool, prefixing commit messages with a category label
//! and its glyph drawn from a fixed vocabulary.

pub mod arguments;
pub mod git;
