//! A module that keeps one optional byte, the line index, in chain state. Block authors
//! supply the byte as inherent data under the identifier `karaoke0`; the module turns it into
//! a call that only the unsigned origin may dispatch, stores it and announces it.

pub mod inherent;
pub mod origin;
pub mod pallet;
pub mod laws;
