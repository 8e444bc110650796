//! A typed client for the Scryfall card-catalog REST API.
//!
//! Each endpoint binding is a resource descriptor value that knows its HTTP
//! method, its vendor-relative path and its optional request body. The
//! blocking [`ScryfallBlocking`] client composes `base_url + "/" + path`,
//! sends the request, and decodes the response envelope into either the
//! expected model or the vendor's error body, selected by the `object`
//! discriminant member of the response.
//!
//! Bindings are provided for the cards, bulk-data, catalog, symbology,
//! sets and rulings resources.

pub mod client;
pub mod json;
pub mod model;
pub mod render;
pub mod resources;
pub mod text;

pub use client::blocking::Scryfall as ScryfallBlocking;
pub use resources::HttpResource;
pub use resources::Response;
pub use resources::ResourceKind;
pub use resources::bulk_data::BulkDataResource;
pub use resources::card_sets::CardSetListResource;
pub use resources::card_sets::CardSetResource;
pub use resources::card_symbols::CardSymbolsResource;
pub use resources::card_symbols::ManaCostResource;
pub use resources::cards::CardResource;
pub use resources::catalog::CatalogResource;
pub use resources::rulings::RulingListResource;
