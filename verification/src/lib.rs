//! Conversion of GitHub Copilot CLI session events into the universal agent
//! event schema, with every step of the mapping stated and proved.

pub mod text;
pub mod temp_id;
pub mod json;
pub mod schema;
pub mod copilot;
pub mod laws;
