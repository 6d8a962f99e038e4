//! A verified state-bridge core: a state container, a string-keyed reducer,
//! and a dispatch gateway that speaks a structured JSON-like value language
//! at its boundary.
//!
//! The container owns the single authoritative application state; every
//! mutation goes through a reducer under exclusive (`&mut`) access, so a
//! failed action can never corrupt or partially update the state. The
//! gateway turns boundary-encoded requests into container calls and hands
//! back both the reply and the notification to broadcast, leaving the actual
//! transport (window events, tray menus) to unverified glue.

pub mod action;
pub mod commands;
pub mod error;
pub mod gateway;
pub mod manager;
pub mod reducer;
pub mod response;
pub mod state;
pub mod tray;
pub mod value;
