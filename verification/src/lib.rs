//! Command-line front end for exporting and comparing FFXIV background music:
//! the decisions it takes on its arguments and on the progress reports of an
//! export run, stated and proved.

pub mod numeric;
pub mod text;
pub mod args;
pub mod progress;
