//! Request logic of a paste-sharing web service: record identifiers,
//! field validation, token handling and the decisions each endpoint takes
//! around its database work.

pub mod auth;
pub mod email;
pub mod models;
pub mod object_id;
pub mod paste_api;
pub mod response;
pub mod user_api;
pub mod validation;
