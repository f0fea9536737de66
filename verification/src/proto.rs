//! The messages of the store's protocol and of its write-ahead log, with
//! their abstract views and their Protocol Buffers encoding.
//!
//! Field numbers: `WriteKv { key = 1, value = 2 }`, `ReadKv { key = 1 }`,
//! `DeleteKv { key = 1 }`, `AvailableOperationsOnKv { oneof op { write_op = 1,
//! read_op = 2, delete_op = 3 } }`, `Wal { sq_no = 1, operation = 2 }`.

pub mod available_operations_on_kv;

use vstd::prelude::*;
use vstd::utf8::encode_utf8;

use crate::wire::{
    encode_length_delimited_key, encode_string, encode_uint64, encode_varint,
    encoded_len_varint, field_key, length_delimited_field, string_field, uint64_field, varint,
    wire_type_length_delimited, wire_type_varint,
};
use available_operations_on_kv::Op;

verus! {

/// Write `value` under `key`.
#[derive(Clone, Debug, PartialEq, Eq, Default)]
pub struct WriteKv {
    pub key: String,
    pub value: String,
}

/// Read the value under `key`.
#[derive(Clone, Debug, PartialEq, Eq, Default)]
pub struct ReadKv {
    pub key: String,
}

/// Delete the entry under `key`.
#[derive(Clone, Debug, PartialEq, Eq, Default)]
pub struct DeleteKv {
    pub key: String,
}

/// An operation request; `op` is absent in a request that names none.
#[derive(Clone, Debug, PartialEq, Eq, Default)]
pub struct AvailableOperationsOnKv {
    pub op: Option<Op>,
}

/// A record of the write-ahead log: a sequence number and the operation.
#[derive(Clone, Debug, PartialEq, Eq, Default)]
pub struct Wal {
    pub sq_no: u64,
    pub operation: Option<AvailableOperationsOnKv>,
}

/// The abstract value of an operation: keys and values as character sequences.
pub enum OpView {
    Write { key: Seq<char>, value: Seq<char> },
    Read { key: Seq<char> },
    Delete { key: Seq<char> },
}

/// The abstract value of a log record.
pub struct WalView {
    pub sq_no: u64,
    pub operation: Option<Option<OpView>>,
}

impl View for Op {
    type V = OpView;

    open spec fn view(&self) -> OpView {
        match self {
            Op::WriteOp(w) => OpView::Write { key: w.key@, value: w.value@ },
            Op::ReadOp(r) => OpView::Read { key: r.key@ },
            Op::DeleteOp(d) => OpView::Delete { key: d.key@ },
        }
    }
}

impl View for AvailableOperationsOnKv {
    type V = Option<OpView>;

    open spec fn view(&self) -> Option<OpView> {
        match self.op {
            Some(op) => Some(op@),
            None => None,
        }
    }
}

impl View for Wal {
    type V = WalView;

    open spec fn view(&self) -> WalView {
        WalView {
            sq_no: self.sq_no,
            operation: match self.operation {
                Some(a) => Some(a@),
                None => None,
            },
        }
    }
}

/// Body of a `WriteKv` message.
pub open spec fn write_kv_bytes(key: Seq<char>, value: Seq<char>) -> Seq<u8> {
    string_field(1, key) + string_field(2, value)
}

/// Body of a `ReadKv` or `DeleteKv` message.
pub open spec fn key_kv_bytes(key: Seq<char>) -> Seq<u8> {
    string_field(1, key)
}

/// The `op` field of an `AvailableOperationsOnKv` message as it appears in
/// the message body (absent when there is no operation).
pub open spec fn op_field_bytes(op: OpView) -> Seq<u8> {
    match op {
        OpView::Write { key, value } => length_delimited_field(1, write_kv_bytes(key, value)),
        OpView::Read { key } => length_delimited_field(2, key_kv_bytes(key)),
        OpView::Delete { key } => length_delimited_field(3, key_kv_bytes(key)),
    }
}

/// Body of an `AvailableOperationsOnKv` message.
pub open spec fn operation_bytes(op: Option<OpView>) -> Seq<u8> {
    match op {
        Some(o) => op_field_bytes(o),
        None => Seq::empty(),
    }
}

/// Body of a `Wal` message: the encoding of a log record.
pub open spec fn wal_bytes(w: WalView) -> Seq<u8> {
    uint64_field(1, w.sq_no) + match w.operation {
        Some(a) => length_delimited_field(2, operation_bytes(a)),
        None => Seq::empty(),
    }
}

/// Length of `n` added to `m`, or `None` past `usize::MAX`.
fn add_len(m: usize, n: usize) -> (r: Option<usize>)
    ensures
        r matches Some(s) ==> s == m + n,
        r is None ==> m + n > usize::MAX,
{
    m.checked_add(n)
}

/// Length of a length-delimited field with tag `tag` and a body of
/// `body_len` bytes, or `None` past `usize::MAX`.
fn length_delimited_len(tag: u32, body_len: usize) -> (r: Option<usize>)
    requires
        1 <= tag <= 3,
    ensures
        r matches Some(s) ==> s == field_key(tag as nat, wire_type_length_delimited()).len()
            + varint(body_len as nat).len() + body_len,
        r is None ==> field_key(tag as nat, wire_type_length_delimited()).len() + varint(
            body_len as nat,
        ).len() + body_len > usize::MAX,
{
    let key_len = encoded_len_varint((tag as u64) * 8 + 2);
    let prefix_len = encoded_len_varint(body_len as u64);
    match add_len(key_len, prefix_len) {
        Some(head) => add_len(head, body_len),
        None => None,
    }
}

/// Length of `string_field(tag, s@)`, or `None` past `usize::MAX`.
fn string_field_len(tag: u32, s: &String) -> (r: Option<usize>)
    requires
        1 <= tag <= 2,
    ensures
        r matches Some(n) ==> n == string_field(tag as nat, s@).len(),
        r is None ==> string_field(tag as nat, s@).len() > usize::MAX,
{
    if s.as_str().is_empty() {
        Some(0)
    } else {
        let bytes = s.as_str().as_bytes();
        length_delimited_len(tag, bytes.len())
    }
}

/// Appends `string_field(tag, s@)` to `buf`.
fn encode_string_field(tag: u32, s: &String, buf: &mut Vec<u8>)
    requires
        1 <= tag <= 2,
        old(buf)@.len() + string_field(tag as nat, s@).len() <= isize::MAX,
    ensures
        final(buf)@ == old(buf)@ + string_field(tag as nat, s@),
{
    if !s.as_str().is_empty() {
        encode_string(tag, s, buf);
    } else {
        assert(final(buf)@ =~= old(buf)@ + string_field(tag as nat, s@));
    }
}

impl WriteKv {
    /// Length of the message body, or `None` past `usize::MAX`.
    pub(crate) fn checked_encoded_len(&self) -> (r: Option<usize>)
        ensures
            r matches Some(n) ==> n == write_kv_bytes(self.key@, self.value@).len(),
            r is None ==> write_kv_bytes(self.key@, self.value@).len() > usize::MAX,
    {
        match string_field_len(1, &self.key) {
            Some(a) => match string_field_len(2, &self.value) {
                Some(b) => add_len(a, b),
                None => None,
            },
            None => None,
        }
    }

    /// Appends the message body to `buf`.
    pub(crate) fn encode_raw(&self, buf: &mut Vec<u8>)
        requires
            old(buf)@.len() + write_kv_bytes(self.key@, self.value@).len() <= isize::MAX,
        ensures
            final(buf)@ == old(buf)@ + write_kv_bytes(self.key@, self.value@),
    {
        encode_string_field(1, &self.key, buf);
        encode_string_field(2, &self.value, buf);
        assert(final(buf)@ =~= old(buf)@ + write_kv_bytes(self.key@, self.value@));
    }
}

/// Length of `key_kv_bytes(key@)`, or `None` past `usize::MAX`.
fn key_kv_len(key: &String) -> (r: Option<usize>)
    ensures
        r matches Some(n) ==> n == key_kv_bytes(key@).len(),
        r is None ==> key_kv_bytes(key@).len() > usize::MAX,
{
    string_field_len(1, key)
}

impl Op {
    /// Tag of the one-of field that carries this operation.
    fn tag(&self) -> (t: u32)
        ensures
            t == match self@ {
                OpView::Write { .. } => 1u32,
                OpView::Read { .. } => 2u32,
                OpView::Delete { .. } => 3u32,
            },
    {
        match self {
            Op::WriteOp(_) => 1,
            Op::ReadOp(_) => 2,
            Op::DeleteOp(_) => 3,
        }
    }

    /// Length of the body of the nested message, or `None` past `usize::MAX`.
    fn body_len(&self) -> (r: Option<usize>)
        ensures
            r matches Some(n) ==> n == op_body_bytes(self@).len(),
            r is None ==> op_body_bytes(self@).len() > usize::MAX,
    {
        match self {
            Op::WriteOp(w) => w.checked_encoded_len(),
            Op::ReadOp(r) => key_kv_len(&r.key),
            Op::DeleteOp(d) => key_kv_len(&d.key),
        }
    }

    /// Appends the body of the nested message to `buf`.
    fn encode_body(&self, buf: &mut Vec<u8>)
        requires
            old(buf)@.len() + op_body_bytes(self@).len() <= isize::MAX,
        ensures
            final(buf)@ == old(buf)@ + op_body_bytes(self@),
    {
        match self {
            Op::WriteOp(w) => w.encode_raw(buf),
            Op::ReadOp(r) => encode_string_field(1, &r.key, buf),
            Op::DeleteOp(d) => encode_string_field(1, &d.key, buf),
        }
    }

    /// Length of `op_field_bytes(self@)`, or `None` past `usize::MAX`.
    pub(crate) fn checked_encoded_len(&self) -> (r: Option<usize>)
        ensures
            r matches Some(n) ==> n == op_field_bytes(self@).len(),
            r is None ==> op_field_bytes(self@).len() > usize::MAX,
    {
        match self.body_len() {
            Some(n) => length_delimited_len(self.tag(), n),
            None => None,
        }
    }

    /// Appends `op_field_bytes(self@)` to `buf`.
    pub(crate) fn encode(&self, buf: &mut Vec<u8>)
        requires
            old(buf)@.len() + op_field_bytes(self@).len() <= isize::MAX,
        ensures
            final(buf)@ == old(buf)@ + op_field_bytes(self@),
    {
        let n = match self.body_len() {
            Some(n) => n,
            None => {
                assert(false);
                0
            },
        };
        encode_length_delimited_key(self.tag(), buf);
        encode_varint(n as u64, buf);
        self.encode_body(buf);
        assert(final(buf)@ =~= old(buf)@ + op_field_bytes(self@));
    }
}

/// Body of the nested message that carries an operation.
pub open spec fn op_body_bytes(op: OpView) -> Seq<u8> {
    match op {
        OpView::Write { key, value } => write_kv_bytes(key, value),
        OpView::Read { key } => key_kv_bytes(key),
        OpView::Delete { key } => key_kv_bytes(key),
    }
}


impl AvailableOperationsOnKv {
    /// Length of `operation_bytes(self@)`, or `None` past `usize::MAX`.
    pub(crate) fn checked_encoded_len(&self) -> (r: Option<usize>)
        ensures
            r matches Some(n) ==> n == operation_bytes(self@).len(),
            r is None ==> operation_bytes(self@).len() > usize::MAX,
    {
        match &self.op {
            Some(op) => op.checked_encoded_len(),
            None => Some(0),
        }
    }

    /// Appends `operation_bytes(self@)` to `buf`.
    pub(crate) fn encode_raw(&self, buf: &mut Vec<u8>)
        requires
            old(buf)@.len() + operation_bytes(self@).len() <= isize::MAX,
        ensures
            final(buf)@ == old(buf)@ + operation_bytes(self@),
    {
        match &self.op {
            Some(op) => op.encode(buf),
            None => {
                assert(final(buf)@ =~= old(buf)@ + operation_bytes(self@));
            },
        }
    }
}

/// The buffer could not take the encoded message: `required` bytes were
/// needed (`usize::MAX` standing for any larger count) and only `remaining`
/// more bytes fit in a vector.
#[derive(Clone, Copy, Debug, PartialEq, Eq)]
pub struct EncodeError {
    pub required: usize,
    pub remaining: usize,
}

/// The most bytes that a `Vec<u8>` can hold.
pub open spec fn vec_capacity_limit() -> nat {
    isize::MAX as nat
}

impl Wal {
    /// Length of `wal_bytes(self@)`, or `None` past `usize::MAX`.
    pub(crate) fn checked_encoded_len(&self) -> (r: Option<usize>)
        ensures
            r matches Some(n) ==> n == wal_bytes(self@).len(),
            r is None ==> wal_bytes(self@).len() > usize::MAX,
    {
        let seq_len: usize = if self.sq_no == 0 {
            0
        } else {
            match add_len(encoded_len_varint(8), encoded_len_varint(self.sq_no)) {
                Some(n) => n,
                None => {
                    return None;
                },
            }
        };
        match &self.operation {
            Some(a) => match a.checked_encoded_len() {
                Some(body) => match length_delimited_len(2, body) {
                    Some(n) => add_len(seq_len, n),
                    None => None,
                },
                None => None,
            },
            None => Some(seq_len),
        }
    }

    /// Encodes the record and appends it to `buf`, or fails without touching
    /// `buf` when the vector cannot hold the result.
    pub fn encode(&self, buf: &mut Vec<u8>) -> (r: Result<(), EncodeError>)
        requires
            old(buf)@.len() <= vec_capacity_limit(),
        ensures
            r is Ok <==> old(buf)@.len() + wal_bytes(self@).len() <= vec_capacity_limit(),
            r is Ok ==> final(buf)@ == old(buf)@ + wal_bytes(self@),
            r matches Err(e) ==> {
                &&& final(buf)@ == old(buf)@
                &&& e.remaining == vec_capacity_limit() - old(buf)@.len()
                &&& e.required == if wal_bytes(self@).len() <= usize::MAX {
                    wal_bytes(self@).len()
                } else {
                    usize::MAX as nat
                }
            },
    {
        let required = match self.checked_encoded_len() {
            Some(n) => n,
            None => usize::MAX,
        };
        let remaining = (isize::MAX as usize) - buf.len();
        if required > remaining {
            return Err(EncodeError { required, remaining });
        }
        if self.sq_no != 0 {
            encode_uint64(1, self.sq_no, buf);
        }
        match &self.operation {
            Some(a) => {
                let body = match a.checked_encoded_len() {
                    Some(n) => n,
                    None => {
                        assert(false);
                        0
                    },
                };
                encode_length_delimited_key(2, buf);
                encode_varint(body as u64, buf);
                a.encode_raw(buf);
            },
            None => {},
        }
        assert(final(buf)@ =~= old(buf)@ + wal_bytes(self@));
        Ok(())
    }
}

} // verus!
