//! The logic of a desktop shell that hosts a bundled web server and lets its
//! embedded pages open further windows on external URLs.
//!
//! - [`counter`]: the window counter that hands out sequence numbers.
//! - [`label`]: the text of window labels and titles.
//! - [`window`]: the request for a secondary window, and its errors.
//! - [`launcher`]: how the bundled server is started, and what follows.

pub mod counter;
pub mod label;
pub mod launcher;
pub mod window;
