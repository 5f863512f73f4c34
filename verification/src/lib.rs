//! The rules of a shop that rents out AI servers.
//!
//! - [`pricing`]: what used equipment is worth after its hours of use.
//! - [`catalog`]: the packages on offer, their price range, and the orders.
//! - [`names`]: the words under which the catalogue's closed sets are stored.
//! - [`records`]: the rows of the store, unchecked.
//! - [`assembly`]: from rows to the catalogue, with every check made once.
//! - [`display`]: what a page shows of a package.
//! - [`identity`]: identifiers.

pub mod assembly;
pub mod catalog;
pub mod display;
pub mod identity;
pub mod names;
pub mod pricing;
pub mod records;
