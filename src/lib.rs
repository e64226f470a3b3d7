use vstd::prelude::*;

pub mod checks;
pub mod clock;
pub mod frames;
pub mod json;
mod report;
mod runner;
mod scenario;
mod text;
mod transport;

pub use clock::{epoch_millis, run_id_at, unique_run_id, RunIds};
pub use json::JsonValue;
pub use report::{ConformanceOutcome, ConformanceReport};
pub use runner::ConformanceRunner;
pub use scenario::Scenario;
pub use text::decimal_string;
pub use transport::{
    check_fetch_status, check_frame_count, normalize_base_url, normalize_trimmed_base_url, normalize_path, read_step,
    websocket_url, ConformanceTransport, ReadStep, SocketFrame, TransportError,
};

verus! {

/// The protocol version that the catalog expects a gateway to advertise.
pub const EXPECTED_PROTOCOL_VERSION: u64 = 3;

} // verus!
