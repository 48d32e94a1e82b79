//! The terminal core of a screen editor: raw-mode settings, the window
//! geometry, frame composition in one buffer, key dispatch, and the session
//! that hands the saved terminal attributes back exactly once.
pub mod ansi;
pub mod error;
pub mod geometry;
pub mod keys;
pub mod mode;
pub mod render;
pub mod session;

pub use ansi::AnsiBuffer;
pub use error::TermError;
pub use geometry::{Geometry, Winsize};
pub use keys::{ctrl_key, is_quit_key, key_from_byte, CursorPosition, QUIT_LETTER};
pub use mode::{raw_mode_flags, ModeBits, ModeFlags};
pub use render::{banner_text, center_text, Screen, EDITEUREN_VERSION};
pub use session::{Action, Editor, Event, Phase};
