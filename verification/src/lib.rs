//! Posting replies to forum threads of two families of legacy forum engines.
//!
//! A typed URL is recognised as a thread or a board of one family (`bbs`),
//! a board is resolved to its newest thread through its index, the thread's
//! page tells its charset and title (`page`), and a reply is turned into the
//! request that the family's engine expects (`compatible`, `shitaraba`).
//! Nothing here touches the network: requests are built and answers are
//! judged, and the caller carries them to and fro.

pub mod bbs;
pub mod charset;
pub mod compatible;
pub mod error;
pub mod http;
pub mod location;
pub mod page;
pub mod popover_view_model;
pub mod shitaraba;
pub mod text;
