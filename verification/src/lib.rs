//! A constraint-system encoding of ECDSA signature verification over the
//! Pallas curve: wire columns, a single verification gate, and the witness
//! synthesis that fills them, with the point arithmetic and field bridging
//! the synthesis needs.
pub mod bridge;
pub mod circuit;
pub mod field;
pub mod layout;
pub mod points;
pub mod region;
pub mod report;
