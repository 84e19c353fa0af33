//! Authentication and credential-handling core of a user-identity service:
//! username derivation, password hashing and verification, token issuance
//! and verification, and the request-gating decision for protected routes.

pub mod flows;
pub mod gate;
pub mod model;
pub mod password;
pub mod text;
pub mod token;
pub mod username;
pub mod validate;
