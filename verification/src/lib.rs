//! Client-side logic for the MODIS land-product web service: the catalogue of
//! product codes, the request URLs, the reading of a reply, and the layout and
//! colouring of a returned grid.

pub mod decimal;
pub mod error;
pub mod grid;
pub mod order;
pub mod product_type;
pub mod reply;
pub mod structs;
pub mod text;
pub mod url;

pub use error::ModisError;
pub use grid::{cell_color, cell_position, tiles, transparent, Rgba, Tile, FILL_VALUE};
pub use order::{compare_dates, compare_text, Rank};
pub use product_type::ProductType;
pub use reply::{conclude, conclude_subset, is_success, Reply};
pub use structs::{
    DateInfo, DatesWrapper, ModisData, Product, ProductsData, Real, Site, Sites, Subset,
};
pub use url::{dates_url, products_url, sites_url, subset_url, BASE_URL};
