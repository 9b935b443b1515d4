//! What holds of the library as a whole, across its functions.
pub mod access;
pub mod catalog;
pub mod dates;
pub mod fetching;
pub mod listing;
pub mod noticing;
pub mod prices;
pub mod reading;
pub mod replies;
pub mod tables;
pub mod terms;
pub mod values;
pub mod warnings;
pub mod whole;
