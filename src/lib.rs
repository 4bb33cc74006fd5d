//! Latest-price ticker of an exchange's public spot API: the request that is
//! sent for it, and the normalisation of the two shapes in which the server
//! answers into one ordered list of price records.

pub mod api;
pub mod ticker;
