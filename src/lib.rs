//! Passive open for a userspace TCP stack: the listening side of the
//! three-way handshake, with a bounded backlog of half-open attempts,
//! a SYN-ACK retry schedule per attempt and a first-in first-out queue of
//! completed handshakes for the accepting consumer.
pub mod types;
pub mod tables;
pub mod retry;
pub mod ready;
pub mod isn;
pub mod window;
pub mod socket;
pub mod laws;
