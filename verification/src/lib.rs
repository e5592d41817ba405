//! Matching the records of two vehicle data sets and deriving vehicles from
//! them.
//!
//! A vehicle of the fuel-economy label data set is matched to the record of
//! the regulatory test data set that stands for it ([`matching`], with the
//! reading of transmission descriptions in [`transmission`]). From the two
//! records and a few physical inputs, the parameters of the vehicle are
//! derived ([`derive`]); the vehicle then sets its curves, checks itself and
//! closes its mass ([`vehicle`]). Its drag and rolling resistance
//! coefficients are fitted to the road load of the test record
//! ([`coastdown`]). Lists of vehicles are derived in [`import`], and the
//! tables of the label data set are read in [`rows`].
//!
//! Quantities are decimal numbers with nine fractional digits ([`fixed`]),
//! texts are sequences of characters ([`text`]), and every function states
//! what it returns over these.

pub mod cache;
pub mod coastdown;
pub mod curve;
pub mod derive;
pub mod files;
pub mod fixed;
pub mod import;
pub mod matching;
pub mod params;
pub mod records;
pub mod rows;
pub mod text;
pub mod transmission;
pub mod vehicle;
