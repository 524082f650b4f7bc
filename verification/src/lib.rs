//! Service crate generation and the instance-metadata credential provider of
//! the AWS SDK, with their contracts proved by Verus.
//!
//! - `codegen`: the contents and paths of each generated service crate, the
//!   protocol date a service is generated from, and which protocols need
//!   JSON serialization.
//! - `credential`: credentials, the provider error, and expiration instants.
//! - `instance_metadata`: the fetch of credentials from the instance metadata
//!   service, as steps from each response to the next request or outcome.
//! - `json`: what the credential logic reads of a JSON document.
//! - `text`: character-level string operations and the order of strings.
pub mod codegen;
pub mod credential;
pub mod instance_metadata;
pub mod json;
pub mod text;
