//! Document state for a small text editor: the text being edited, the file
//! it is bound to, and the font styling applied over it.
//!
//! The library decides; the window around it reads and writes files and
//! shows dialogs, then hands the outcomes back as plain values.

pub mod session;
pub mod history;
pub mod style;
