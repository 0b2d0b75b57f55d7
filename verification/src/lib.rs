//! Session issuing for an HTTP identity service: credential types, the
//! user directory, the revocation set, the two-factor challenge store and
//! the login state machine that ties them together.
//!
//! Every store is a trait with an abstract model (a `Map` or a `Set` over
//! the text of its keys) and an in-memory implementation. The request
//! handlers are generic over the stores; what they return and how they
//! change the stores is stated over those models.

pub mod api_handlers;
pub mod assoc;
pub mod config;
pub mod domain;
pub mod email_client;
pub mod services;
