//! What the screen shows besides the containers: the status flags, the
//! loading sign, and the styled text of the logs.

pub mod color_match;
pub mod gui_state;

pub use gui_state::{GuiState, Status};
