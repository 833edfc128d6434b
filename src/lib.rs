//! Price tracking for retail products: classification of each new price
//! against its history, the content of the notifications that follow, the
//! choice of site adapter for a product link, and the run over all products.

pub mod notify;
pub mod price_text;
pub mod pricing;
pub mod run;
pub mod sites;
pub mod text;
