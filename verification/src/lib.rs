mod external;

pub mod cache;
pub mod laws;

pub use cache::file_needs_recomputation;
pub use cache::FileBackedValue;
pub use cache::FileBackedValueError;
pub use cache::FileBackedValueResult;
pub use cache::ReadOutcome;
