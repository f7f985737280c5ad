//! A process-wide logger whose backend can be replaced at run time.
//!
//! The current backend sits in an epoch-protected atomic slot: readers pin
//! an epoch, load the slot and delegate to what they found, while writers
//! publish a freshly built backend with a single atomic store. A replaced
//! backend is never freed, so no reader can be left holding freed memory.
pub mod backend;
pub mod shared;
pub mod style;

pub use backend::{Backend, BackendConfig};
pub use shared::{InitError, SharedLogger};
pub use style::{ColorChoice, FilterLevel, WriteStyle};
