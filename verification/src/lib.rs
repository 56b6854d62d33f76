//! Core rules of the field-service operations hub: the pure logic behind the
//! web frontend (API paths, search URLs, selection state, navigation) and the
//! decisions the HTTP handlers take (validation, access rules, review rules).

pub mod text;
pub mod decimal;
pub mod url;
pub mod api_paths;
pub mod tag_selection;
pub mod compare;
pub mod rating;
pub mod route;
pub mod auth_state;
pub mod nav;
pub mod search;
pub mod status;
pub mod ids;
pub mod catalog;
pub mod access;
pub mod reviews;
pub mod account;
pub mod face;
pub mod warehouse;
pub mod files;
