//! What the screen shows, as far as it does not depend on how it is drawn.
pub mod input;
pub mod layout;
pub mod status_bar;
