//! Command interpretation for a terminal editor client: prompt lines and
//! key-binding records become typed commands, and commands render back to
//! short labels.
pub mod cmd;
pub mod find;
pub mod keymap;
pub mod laws;
pub mod moves;
pub mod prompt;
pub mod text;

pub use cmd::{
    AbsoluteMove, AbsoluteMovePoint, Command, CommandPromptMode, ExpandLinesDirection, FindConfig,
    FromPrompt, ParseCommandError, RelativeMove, RelativeMoveDistance, ToPrompt,
};
pub use keymap::{KeymapArgs, KeymapEntry};
