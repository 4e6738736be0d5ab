//! Command/response logic for a desktop shell that delegates source-code
//! analysis to an external analyzer process and model management to an
//! external model-serving CLI.
//!
//! The library holds the verified logic: deciding what each operation
//! returns for every possible outcome of the external calls, decoding the
//! analyzer's JSON output, aggregating batch results, parsing the model
//! CLI's listing, and the local environment checks. The surrounding binary
//! performs the actual process spawning and filesystem reads and hands the
//! outcomes to this library as plain values.

pub mod analysis;
pub mod decode;
pub mod environment;
pub mod json;
pub mod ollama;
pub mod strings;
pub mod types;
