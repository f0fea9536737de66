//! A key-value store engine: a query language for write, read and delete
//! operations, an in-memory key-value storage, and a write-ahead log whose
//! records are Protocol Buffers messages.

pub mod wire;
pub mod proto;
pub mod query;
pub mod storage;
pub mod engine;
pub mod laws;
pub mod text;
pub mod http;

pub use engine::{Step, StoreEngine};
pub use proto::available_operations_on_kv::Op;
pub use proto::{AvailableOperationsOnKv, DeleteKv, EncodeError, ReadKv, Wal, WriteKv};
pub use storage::{KvOutput, MemStorage};
