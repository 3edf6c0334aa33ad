//! Convenient re-exports for client-side usage.

pub use crate::ClientHandle;
pub use crate::ClientReporter;
pub use crate::ClientState;
pub use crate::ClientStore;
pub use crate::ReportError;
pub use crate::TaskId;
pub use crate::TaskStatus;
