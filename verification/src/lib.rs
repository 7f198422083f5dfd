//! A small, fully specified model of a record-keeping HTTP microservice:
//! three stateless endpoints (health check, record creation, record lookup)
//! whose response bodies are built and proved exact here. The surrounding
//! HTTP plumbing lives outside the library and only forwards plain values.

pub mod json;
pub mod record;
pub mod routes;
pub mod service;
