//! Triple buffering: a single producer publishes values, a single consumer
//! always reads the latest one, and neither ever waits for the other.
//!
//! Three value slots are partitioned between the producer (its input slot),
//! the consumer (its output slot) and a back slot in transit between them.
//! Which slot is in the back position, and whether it holds a value that the
//! consumer has not taken yet, is recorded in one descriptor word.
pub mod back_info;
pub mod state;
pub mod input;
pub mod output;
pub mod buffer;
pub mod laws;

pub use back_info::{BACK_DIRTY_BIT, BACK_INDEX_MASK};
pub use buffer::TripleBuffer;
pub use input::Input;
pub use output::Output;
pub use state::SharedState;
