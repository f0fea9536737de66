//! The store engine: it turns queries into operations and runs them against
//! the in-memory storage, recording every write and delete in the
//! write-ahead log first.
//!
//! The engine does not touch the log file itself. Running a write or a delete
//! takes two calls: `execute_operation` hands back the encoded log record to
//! append, and `complete_operation`, given the outcome of the append,
//! applies the operation (after a durable append) or drops it (after a
//! failed one).

use vstd::prelude::*;
use vstd::string::StringExecFns;

use crate::proto::available_operations_on_kv::Op;
use crate::proto::{wal_bytes, AvailableOperationsOnKv, DeleteKv, OpView, ReadKv, Wal, WalView, WriteKv};
use crate::query::{matches_keyword, parse_query, split_query, lemma_split_nonempty};
use crate::storage::{read_result, KvOutput, MemStorage, MemStorageView};
use crate::text::{append_decimal, decimal};

verus! {

broadcast use vstd::string::group_string_axioms;

/// The abstract state of a `StoreEngine`.
pub struct StoreView {
    pub project_name: Seq<char>,
    pub next_seq_no: u64,
    pub storage: MemStorageView,
    /// The write or delete whose log record is waiting to be appended.
    pub pending: Option<OpView>,
}

/// The map after `op`: a write stores its value, a delete removes its key,
/// a read changes nothing.
pub open spec fn apply_op(contents: Map<Seq<char>, Seq<char>>, op: OpView) -> Map<
    Seq<char>,
    Seq<char>,
> {
    match op {
        OpView::Write { key, value } => contents.insert(key, value),
        OpView::Delete { key } => contents.remove(key),
        OpView::Read { .. } => contents,
    }
}

/// What `op` returns: the pair written, the pair removed, or the pair read.
pub open spec fn op_output(contents: Map<Seq<char>, Seq<char>>, op: OpView) -> Option<
    (Seq<char>, Seq<char>),
> {
    match op {
        OpView::Write { key, value } => Some((key, value)),
        OpView::Delete { key } => read_result(contents, key),
        OpView::Read { key } => read_result(contents, key),
    }
}

/// The log record for `op` in state `s`: the next sequence number and the
/// operation.
pub open spec fn log_record(s: StoreView, op: OpView) -> Seq<u8> {
    wal_bytes(WalView { sq_no: s.next_seq_no, operation: Some(Some(op)) })
}

/// State `s` with `op` waiting for its log record to be appended.
pub open spec fn staged(s: StoreView, op: OpView) -> StoreView {
    StoreView { pending: Some(op), ..s }
}

/// State `s` after the log record of `op` was appended: `op` applied under
/// the next sequence number, which then advances by one.
pub open spec fn committed(s: StoreView, op: OpView) -> StoreView {
    StoreView {
        next_seq_no: (s.next_seq_no + 1) as u64,
        storage: MemStorageView {
            sq_no: s.next_seq_no,
            contents: apply_op(s.storage.contents, op),
        },
        pending: None,
        ..s
    }
}

/// State `s` after the append of the pending record failed: nothing applied.
pub open spec fn abandoned(s: StoreView) -> StoreView {
    StoreView { pending: None, ..s }
}

/// The abstract value of an operation's result.
pub open spec fn output_view(out: Option<KvOutput>) -> Option<(Seq<char>, Seq<char>)> {
    match out {
        Some(o) => Some(o@),
        None => None,
    }
}

/// The number of bytes a log record may need before encoding it fails.
pub open spec fn capped_len(n: nat) -> usize {
    if n <= usize::MAX {
        n as usize
    } else {
        usize::MAX
    }
}

/// The message of a log record that does not fit in a vector: `required`
/// bytes were needed, `remaining` were available.
pub open spec fn wal_encode_failure_message(required: usize, remaining: usize) -> Seq<char> {
    "Error Occured while encoding wal into 8bit wal buffer (vec<u8>)\nfailed to encode Protobuf message; insufficient buffer capacity (required: "@
        + decimal(required as nat) + ", remaining: "@ + decimal(remaining as nat) + ")"@
}

/// The error for a log record that does not fit in a vector.
fn wal_encode_failure(required: usize, remaining: usize) -> (s: String)
    ensures
        s@ == wal_encode_failure_message(required, remaining),
{
    let mut s = String::from_str(
        "Error Occured while encoding wal into 8bit wal buffer (vec<u8>)\nfailed to encode Protobuf message; insufficient buffer capacity (required: ",
    );
    append_decimal(&mut s, required);
    s.append(", remaining: ");
    append_decimal(&mut s, remaining);
    s.append(")");
    s
}

/// What `execute_operation` hands back when it does not fail.
pub enum Step {
    /// The operation is done; here is its result.
    Finished(Option<KvOutput>),
    /// Append these bytes to the log, then call `complete_operation`.
    AppendToWal(Vec<u8>),
}

/// The engine of one project's store.
pub struct StoreEngine {
    project_name: String,
    /// The sequence number that the next logged operation receives; always
    /// at least 1.
    next_seq_no: u64,
    in_memory_storage: MemStorage,
    pending: Option<LoggedOp>,
}

/// A write or a delete: the operations that go through the log.
enum LoggedOp {
    Write(WriteKv),
    Delete(DeleteKv),
}

impl View for LoggedOp {
    type V = OpView;

    closed spec fn view(&self) -> OpView {
        match self {
            LoggedOp::Write(w) => OpView::Write { key: w.key@, value: w.value@ },
            LoggedOp::Delete(d) => OpView::Delete { key: d.key@ },
        }
    }
}

impl View for StoreEngine {
    type V = StoreView;

    closed spec fn view(&self) -> StoreView {
        StoreView {
            project_name: self.project_name@,
            next_seq_no: self.next_seq_no,
            storage: self.in_memory_storage@,
            pending: match self.pending {
                Some(op) => Some(op@),
                None => None,
            },
        }
    }
}

impl StoreEngine {
    /// A fresh engine for `project_name`: empty storage, next sequence
    /// number 1, nothing pending.
    pub fn new(project_name: &str) -> (engine: Self)
        ensures
            engine@.project_name == project_name@,
            engine@.next_seq_no == 1,
            engine@.storage.sq_no == 0,
            engine@.storage.contents == Map::<Seq<char>, Seq<char>>::empty(),
            engine@.pending is None,
    {
        StoreEngine {
            project_name: project_name.to_owned(),
            next_seq_no: 1,
            in_memory_storage: MemStorage::new(),
            pending: None,
        }
    }

    /// The engine of a project whose log already exists. Replaying the log
    /// is not done yet: the engine starts as a fresh one.
    pub fn recovery_restart(project_name: &str) -> (engine: Self)
        ensures
            engine@.project_name == project_name@,
            engine@.next_seq_no == 1,
            engine@.storage.sq_no == 0,
            engine@.storage.contents == Map::<Seq<char>, Seq<char>>::empty(),
            engine@.pending is None,
    {
        Self::new(project_name)
    }

    /// The sequence number that the next logged operation receives.
    pub fn next_seq_no(&self) -> (n: u64)
        ensures
            n == self@.next_seq_no,
    {
        self.next_seq_no
    }

    /// The operation that `operation_query` asks for, or a syntax error.
    ///
    /// Queries: `Write <key> = <value>`, `Read <key>`, `Delete <key>`, words
    /// separated by single spaces. The keywords are case-insensitive; keys
    /// and values are case-sensitive and taken as written.
    pub fn prepare_operation(operation_query: &str) -> (r: Result<AvailableOperationsOnKv, String>)
        ensures
            match parse_query(operation_query@) {
                Ok(op) => r matches Ok(a) && a@ == Some(op),
                Err(msg) => r matches Err(e) && e@ == msg,
            },
    {
        let query_list = split_query(operation_query);
        proof {
            lemma_split_nonempty(operation_query@);
        }
        if query_list.len() == 0 {
            return Err(
                "Syntax Error:\nIllegal Query, Coundn't find any operation in query, please write query using correct syntax.".to_string(),
            );
        }
        let op: Op;
        if matches_keyword(&query_list[0], "write") {
            if query_list.len() != 4 || !is_equals_sign(&query_list[2]) {
                return Err("Write Operation Syntax Error \n".to_string());
            }
            op = Op::WriteOp(WriteKv { key: query_list[1].clone(), value: query_list[3].clone() });
        } else if matches_keyword(&query_list[0], "read") {
            if query_list.len() != 2 {
                return Err("Read Operation Syntax Error \n".to_string());
            }
            op = Op::ReadOp(ReadKv { key: query_list[1].clone() });
        } else if matches_keyword(&query_list[0], "delete") {
            if query_list.len() != 2 {
                return Err("Delete Operation Syntax Error \n".to_string());
            }
            op = Op::DeleteOp(DeleteKv { key: query_list[1].clone() });
        } else {
            return Err(
                "Syntax Error:\nIllegal Query, Coundn't find any operation in query, please write query using correct syntax.".to_string(),
            );
        }
        Ok(AvailableOperationsOnKv { op: Some(op) })
    }

    /// Starts running `operation`.
    ///
    /// A read is answered from memory at once. A write or a delete is encoded
    /// as a log record under the next sequence number and left pending: the
    /// caller appends the record to the log and reports the outcome to
    /// `complete_operation`. A request without an operation is refused.
    pub fn execute_operation(&mut self, operation: AvailableOperationsOnKv) -> (r: Result<
        Step,
        String,
    >)
        ensures
            match operation@ {
                None => r matches Err(e) && e@ == "Operation is None!"@ && final(self)@ == old(
                    self,
                )@,
                Some(OpView::Read { key }) => {
                    &&& r matches Ok(Step::Finished(out)) && output_view(out) == read_result(
                        old(self)@.storage.contents,
                        key,
                    )
                    &&& final(self)@ == old(self)@
                },
                Some(op) => if log_record(old(self)@, op).len() <= isize::MAX {
                    &&& r matches Ok(Step::AppendToWal(record)) && record@ == log_record(
                        old(self)@,
                        op,
                    )
                    &&& final(self)@ == staged(old(self)@, op)
                } else {
                    &&& r matches Err(e) && e@ == wal_encode_failure_message(
                        capped_len(log_record(old(self)@, op).len()),
                        isize::MAX as usize,
                    )
                    &&& final(self)@ == old(self)@
                },
            },
    {
        match operation.op {
            None => Err("Operation is None!".to_string()),
            Some(Op::ReadOp(read_op)) => {
                // Reading changes nothing, so nothing is logged.
                let output = self.in_memory_storage.read(read_op.key);
                Ok(Step::Finished(output))
            },
            Some(op) => {
                let ghost op_view = op@;
                let wal = Wal {
                    sq_no: self.next_seq_no,
                    operation: Some(AvailableOperationsOnKv { op: Some(op) }),
                };
                assert(wal@ == WalView { sq_no: self.next_seq_no, operation: Some(Some(op_view)) });
                let mut wal_buf: Vec<u8> = Vec::new();
                match wal.encode(&mut wal_buf) {
                    Ok(()) => {
                        assert(wal_buf@ =~= log_record(old(self)@, op_view));
                        match wal.operation {
                            Some(AvailableOperationsOnKv { op: Some(Op::WriteOp(w)) }) => {
                                self.pending = Some(LoggedOp::Write(w));
                                Ok(Step::AppendToWal(wal_buf))
                            },
                            Some(AvailableOperationsOnKv { op: Some(Op::DeleteOp(d)) }) => {
                                self.pending = Some(LoggedOp::Delete(d));
                                Ok(Step::AppendToWal(wal_buf))
                            },
                            _ => {
                                assert(false);
                                Err("Operation is None!".to_string())
                            },
                        }
                    },
                    Err(e) => Err(wal_encode_failure(e.required, e.remaining)),
                }
            },
        }
    }

    /// Finishes the pending write or delete once its log record was
    /// appended (`appended` is `Ok`) or could not be (`appended` holds the
    /// error, which is returned and the operation dropped). Without a
    /// pending operation there is nothing to finish.
    pub fn complete_operation(&mut self, appended: Result<(), String>) -> (r: Result<
        Option<KvOutput>,
        String,
    >)
        requires
            old(self)@.pending is Some && appended is Ok ==> old(self)@.next_seq_no < u64::MAX,
        ensures
            match old(self)@.pending {
                None => r matches Err(e) && e@ == "Operation is None!"@ && final(self)@ == old(
                    self,
                )@,
                Some(op) => match appended {
                    Err(msg) => r matches Err(e) && e@ == msg@ && final(self)@ == abandoned(
                        old(self)@,
                    ),
                    Ok(()) => {
                        &&& r matches Ok(out) && output_view(out) == op_output(
                            old(self)@.storage.contents,
                            op,
                        )
                        &&& final(self)@ == committed(old(self)@, op)
                    },
                },
            },
    {
        let pending = self.pending.take();
        match pending {
            None => Err("Operation is None!".to_string()),
            Some(op) => match appended {
                Err(e) => Err(e),
                Ok(()) => {
                    let seq_no = self.next_seq_no;
                    let output = match op {
                        LoggedOp::Write(write_kv) => {
                            let written = self.in_memory_storage.write(
                                write_kv.key,
                                write_kv.value,
                                seq_no,
                            );
                            Some(written)
                        },
                        LoggedOp::Delete(delete_kv) => self.in_memory_storage.delete(
                            delete_kv.key,
                            seq_no,
                        ),
                    };
                    self.next_seq_no = seq_no + 1;
                    Ok(output)
                },
            },
        }
    }
}

/// Whether `word` is the single character `=`.
fn is_equals_sign(word: &String) -> (r: bool)
    ensures
        r == (word@ == seq!['=']),
{
    let w = word.as_str();
    if w.unicode_len() != 1 {
        return false;
    }
    let c = w.get_char(0);
    assert(c == '=' ==> w@ =~= seq!['=']);
    c == '='
}

} // verus!
