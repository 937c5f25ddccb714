//! The logic of a keyboard-driven browser that shows two directories side by
//! side: the panes with their cursor, scroll window and marks, what either
//! side keeps of the directories it has left, the caches that drawing text
//! goes through, and the plan of what to draw for a frame.
//!
//! The library touches neither screen nor disk. It takes listings and
//! actions as plain values and hands back what to draw and which directory
//! to list next.

pub mod assoc;
pub mod browser;
pub mod cache;
pub mod directory;
pub mod draw;
pub mod entity;
pub mod exit;
pub mod jobs;
pub mod pane;
pub mod path;
pub mod text;
pub mod texture;
pub mod theme;
pub mod ui;
