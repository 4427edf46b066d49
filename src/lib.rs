//! Event aggregation and state reconciliation for a tiling-window-manager status bar.
pub mod text;
pub mod events;
pub mod state;
pub mod config;
pub mod theme;
pub mod reducer;
pub mod delivery;
pub mod ipc;
pub mod notify;
pub mod system;
pub mod widgets;
pub mod editor;
