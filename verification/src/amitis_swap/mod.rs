//! AmitisSwap: sells AMTS from the contract's reserve for accepted input tokens at the
//! oracle rate (never below the floor price), rebating most of the fee to the buyer.
pub mod contract;
pub mod error;
pub mod laws;
pub mod msg;
pub mod state;
