//! A bridge between a managed host runtime and a native processing engine that
//! tolerates neither concurrent access nor re-entry after a failure.
//!
//! The engine itself stays outside: every operation on it is a closure that the
//! caller supplies. What lives here are the decisions around those calls: the
//! sticky failure flag, the lifetime of the engine handle, what is handed to the
//! host and what the host is told when something goes wrong.
//!
//! Nothing here catches a panic or takes a lock. The caller is expected to
//! hold the `Context` and the `KeepAlive` of a job behind one lock each, and
//! to hand in closures that report a panic of the engine as a `Fault`.

pub mod buffer;
pub mod call;
pub mod context;
pub mod error;
pub mod invariants;
pub mod job;
pub mod pool;
pub mod text;

pub use buffer::{add_input_bytes, add_output_buffer, get_output_buffer_bytes, handle_buffer_drop, HostBuffer};
pub use call::{message, message_sync, task_complete, Completed, PendingCall, Settlement};
pub use context::{Answer, Context, ContextModel, Event, JobModel, KeepAlive, KeepAliveModel};
pub use error::{create_error, BridgeError, ErrorKind, ErrorModel, Fault, FaultKind, FaultModel, HostError};
pub use job::{clean, create_class, drop_native, Job};
pub use pool::{napi_register_module_v1, Bridge};
pub use text::{create_string, get_string};
