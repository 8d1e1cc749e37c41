//! A verified post store: the storage core of a small blog service.
//!
//! The store keeps blog posts in insertion order and assigns each one a
//! unique, stable integer id. [`store::PostStore`] provides the three
//! storage operations (insert, list all, fetch by id), and [`parse`]
//! turns a route's path parameter into an id.

pub mod parse;
pub mod post;
pub mod store;
