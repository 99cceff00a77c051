//! A greeting service: one route, `GET /api/hello`, that always answers with
//! the same text.
//!
//! [`greeting`] holds what the handler computes, [`routes`] holds the route
//! table handed to axum.

pub mod greeting;
pub mod routes;
