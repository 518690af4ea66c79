//! A registry of substitute callables for functions and methods that opt in to
//! being replaced in tests, keyed by a qualified name, with guards that remove
//! a substitute again.

pub mod entry;
pub mod key;
pub mod laws;
pub mod registry;

pub use entry::{ErasedMock, MockEntry, MockWrapper};
pub use key::{owner_key_name, qualified_key};
pub use registry::{MockGuard, MockRegistry};
