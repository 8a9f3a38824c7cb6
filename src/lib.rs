pub mod catalog;
pub mod data;
pub mod laws;
pub mod origin;
pub mod quote;
pub mod select;

pub use catalog::{Catalog, CatalogError};
pub use data::quotes;
pub use origin::{Family, Origin};
pub use quote::Quote;
pub use select::{select, select_with, Query, SelectError, Selection};
