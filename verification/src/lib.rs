//! Session and runtime core of a multi-tab terminal: the table of open tabs,
//! the dispatcher of user actions over it, viewport-to-grid resizing, the
//! command palette's matcher and the routing of terminal output.

pub mod action;
pub mod dispatch;
pub mod label;
pub mod palette;
pub mod registry;
pub mod resize;
pub mod sync;
