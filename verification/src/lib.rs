//! Core logic of a serial-device command dispatcher.
//!
//! The crate models the control plane of a host application that talks to a
//! line-oriented serial peripheral and to a barcode-decoding subprocess:
//! device discovery, the challenge/response handshake, the first-success
//! connection race, the single-consumer command dispatcher with its health
//! monitoring, and the record export format. All I/O is performed by the
//! embedding program; this crate makes every decision and is verified.

pub mod discovery;
pub mod export;
pub mod handshake;
pub mod protocol;
pub mod racer;
pub mod service;
