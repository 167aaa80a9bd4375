//! Text, page and image layout logic of a small landing-page service
//! whose content is derived from the subdomain a visitor asked for.
pub mod host;
pub mod text;
pub mod label;
pub mod page;
pub mod layout;
pub mod reply;
