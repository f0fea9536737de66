//! The `op` alternatives of an `AvailableOperationsOnKv` message.

use vstd::prelude::*;

use super::{DeleteKv, ReadKv, WriteKv};

verus! {

/// One operation on the store: the `op` one-of of `AvailableOperationsOnKv`
/// (field 1 write, field 2 read, field 3 delete).
#[derive(Clone, Debug, PartialEq, Eq)]
pub enum Op {
    WriteOp(WriteKv),
    ReadOp(ReadKv),
    DeleteOp(DeleteKv),
}

} // verus!
