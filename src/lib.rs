//! Decision logic of a webhook that launches a fixed job on a Dagster
//! GraphQL endpoint: the shared-secret check, the launch request, and the
//! mapping of the upstream answer to a reply or an error.

pub mod error;
pub mod launch;
pub mod response;
pub mod handler;
