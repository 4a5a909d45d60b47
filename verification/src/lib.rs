//! Colours, themes and status-bar modules of the Dark Nord theme for LeftWM.

pub mod error;
pub mod manager;
pub mod modules;
pub mod statusbar;
pub mod template;
pub mod theme;

pub use error::{PbStatusError, Result};
