//! The data synchronisation cycle between a fixed-payload API and a client
//! that fetches it: the payload and its JSON form, the classification of a
//! fetch's outcome, and the client's resource state machine.

mod json;

pub mod controller;
pub mod message;
pub mod outcome;
pub mod payload;
pub mod resource;

pub use outcome::{classify, ErrorInfo, FetchOutcome};
pub use payload::{api_payload, decode_api_response, encode_api_response, get_data, ApiResponse};
pub use resource::{transition, Command, Event, ResourceState, DATA_PATH};
pub use controller::ResourceController;
