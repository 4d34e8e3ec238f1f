//! A minimal single-record contract: one stored greeting with single-owner
//! write access. The record is created once by Instantiate, may be rewritten
//! only by its creator through Execute(SetGreeting), and may be read by any
//! principal through Query.

pub mod contract;
pub mod error;
pub mod laws;
pub mod msg;
pub mod response;
pub mod state;
