//! A closable FIFO work queue shared between threads, the sending and
//! receiving ends over it, a fixed pool of workers that drain it, and an
//! executor that owns a queue together with its pool.
//!
//! The queue's behaviour is a state machine, [`QueueState`], whose every step
//! is proved against a model over `Option<Seq<T>>`; [`laws`] proves what holds
//! of whole runs of it. Alongside: wrappers for values that may or may not be
//! forgotten without their destructor running.
pub mod anchor;
pub mod channel;
pub mod laws;
pub mod lock;
pub mod marker;
pub mod mem;
pub mod pool;
pub mod queue_state;
pub mod rc;
pub mod scope;
pub mod sync_queue;

pub use marker::Forget as Leak;
pub use marker::Unforget as Unleak;
pub use marker::{Forget, Unforget};
pub use pool::{Executor, ThreadPool};
pub use queue_state::{ClosedSyncQueueError, QueueState, SyncQueuePushError};
pub use sync_queue::SyncQueue;
