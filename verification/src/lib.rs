//! A bridge between a spawned interactive process's pseudoterminal (PTY)
//! and a pollable pair of channel endpoints: a sink that accepts input
//! events (raw text or terminal resizes) and a stream that yields
//! best-effort text chunks of the child's output until the child exits.

/// Best-effort (lossy) text decoding of child output bytes.
pub mod decode;
/// The error kinds that input submission and construction can raise.
pub mod errors;
/// The input-event type accepted by the sink endpoint.
pub mod events;
/// The trusted boundary around the PTY provider and the raw handles.
pub mod handles;
/// The sink endpoint: accepts input events one at a time.
pub mod sink;
/// The stream endpoint: yields output chunks until the child exits.
pub mod stream;
/// The factory that allocates a PTY, spawns the command and wires up
/// the two endpoints.
pub mod factory;

pub use decode::decode_output;
pub use handles::ChildStatusPoll;
pub use sink::PtySink;
pub use sink::resize_request;
pub use stream::OutputPoll;
pub use stream::PtyStream;
pub use stream::child_exit_ends_stream;
pub use stream::read_outcome_report;
pub use errors::ConstructionError;
pub use errors::InputError;
pub use events::PtyInput;
pub use factory::create;
