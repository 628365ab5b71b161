//! Verified core of a lightweight Telegram desktop client: text scanning
//! (emoji runs, links), formatting helpers, the light/dark theme, the QR
//! sign-in payload and the request/data types exchanged with the network.

pub mod bridge;
pub mod demo;
pub mod emoji;
pub mod format;
pub mod links;
pub mod login;
pub mod network;
pub mod qr;
pub mod remote;
pub mod rows;
pub mod state;
pub mod text;
pub mod theme;
