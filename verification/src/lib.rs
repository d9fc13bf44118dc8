//! Duwet: the decision logic of a keyboard-driven warehouse terminal.
//!
//! The library holds the state of the terminal client, the key handling that
//! edits it, the requests that the client derives from it, and the way replies
//! of the warehouse service are folded back into it. Terminal drawing and the
//! network live in the application around it.
pub mod text;
pub mod model;
pub mod keys;
pub mod screens;
pub mod ops;
pub mod layout;
pub mod view;
pub mod laws;
pub mod outcomes;
