//! Laws of the store that relate several operations.

use vstd::prelude::*;

use crate::engine::{apply_op, committed, log_record, op_output, staged, abandoned, StoreView};
use crate::proto::{op_field_bytes, operation_bytes, wal_bytes, OpView, WalView};
use crate::http::{page_of, page_response, response_with_body, route_of, Route};
use vstd::utf8::encode_utf8;
use crate::wire::string_field;
use crate::query::{ascii_fold, eq_ignore_ascii_case, lemma_split_nonempty, parse_query, split_on_space};
use crate::storage::read_result;
use crate::text::decimal;
use crate::wire::varint;

verus! {

/// The key an operation is about.
pub open spec fn op_key(op: OpView) -> Seq<char> {
    match op {
        OpView::Write { key, .. } => key,
        OpView::Read { key } => key,
        OpView::Delete { key } => key,
    }
}

/// Reading a key after writing it gives back the pair written.
pub proof fn lemma_read_after_write(
    contents: Map<Seq<char>, Seq<char>>,
    key: Seq<char>,
    value: Seq<char>,
)
    ensures
        read_result(apply_op(contents, OpView::Write { key, value }), key) == Some((key, value)),
{
}

/// Reading a key after deleting it finds nothing.
pub proof fn lemma_read_after_delete(contents: Map<Seq<char>, Seq<char>>, key: Seq<char>)
    ensures
        read_result(apply_op(contents, OpView::Delete { key }), key) is None,
{
}

/// An operation leaves every other key as it was.
pub proof fn lemma_other_keys_unchanged(
    contents: Map<Seq<char>, Seq<char>>,
    op: OpView,
    other: Seq<char>,
)
    requires
        other != op_key(op),
    ensures
        read_result(apply_op(contents, op), other) == read_result(contents, other),
{
}

/// A write whose log record was appended is read back: after the write is
/// staged and committed, reading its key gives the pair written.
pub proof fn lemma_committed_write_is_read_back(s: StoreView, key: Seq<char>, value: Seq<char>)
    ensures
        ({
            let op = OpView::Write { key, value };
            read_result(committed(staged(s, op), op).storage.contents, key) == Some((key, value))
        }),
{
}

/// The log record of an operation carries the sequence number under which
/// the operation is applied to memory, and each committed operation
/// advances the next sequence number by one.
pub proof fn lemma_commit_uses_logged_sequence_number(s: StoreView, op: OpView)
    requires
        s.next_seq_no < u64::MAX,
    ensures
        ({
            let after = committed(staged(s, op), op);
            &&& log_record(s, op) == wal_bytes(
                WalView { sq_no: after.storage.sq_no, operation: Some(Some(op)) },
            )
            &&& after.next_seq_no == s.next_seq_no + 1
            &&& after.storage.sq_no < after.next_seq_no
        }),
{
}

/// An operation whose log record could not be appended leaves the store as
/// it was before the operation was started.
pub proof fn lemma_failed_append_changes_nothing(s: StoreView, op: OpView)
    requires
        s.pending is None,
    ensures
        abandoned(staged(s, op)) == s,
{
}

/// Keywords are case-insensitive: two queries whose first words differ only
/// in the case of ASCII letters, and whose other words are equal, ask for
/// the same operation or are refused with the same error.
pub proof fn lemma_keyword_case_insensitive(q1: Seq<char>, q2: Seq<char>)
    requires
        split_on_space(q1).len() == split_on_space(q2).len(),
        eq_ignore_ascii_case(split_on_space(q1)[0], split_on_space(q2)[0]),
        forall|i: int|
            1 <= i < split_on_space(q1).len() ==> #[trigger] split_on_space(q1)[i]
                == split_on_space(q2)[i],
    ensures
        parse_query(q1) == parse_query(q2),
{
    let w1 = split_on_space(q1);
    let w2 = split_on_space(q2);
    lemma_same_keyword(w1[0], w2[0], "write"@);
    lemma_same_keyword(w1[0], w2[0], "read"@);
    lemma_same_keyword(w1[0], w2[0], "delete"@);
    if w1.len() >= 2 {
        assert(w1[1] == w2[1]);
    }
    if w1.len() >= 4 {
        assert(w1[2] == w2[2]);
        assert(w1[3] == w2[3]);
    }
}

/// Two words equal up to ASCII case match the same keywords.
proof fn lemma_same_keyword(a: Seq<char>, b: Seq<char>, keyword: Seq<char>)
    requires
        eq_ignore_ascii_case(a, b),
    ensures
        eq_ignore_ascii_case(a, keyword) == eq_ignore_ascii_case(b, keyword),
{
    if eq_ignore_ascii_case(a, keyword) {
        assert forall|i: int| 0 <= i < b.len() implies ascii_fold(#[trigger] b[i])
            == ascii_fold(keyword[i]) by {
            assert(ascii_fold(a[i]) == ascii_fold(b[i]));
        }
    }
    if eq_ignore_ascii_case(b, keyword) {
        assert forall|i: int| 0 <= i < a.len() implies ascii_fold(#[trigger] a[i])
            == ascii_fold(keyword[i]) by {
            assert(ascii_fold(a[i]) == ascii_fold(b[i]));
        }
    }
}


/// A write answers with the pair it wrote, whatever the store held before
/// under that key.
pub proof fn lemma_write_returns_written_pair(
    contents: Map<Seq<char>, Seq<char>>,
    key: Seq<char>,
    value: Seq<char>,
)
    ensures
        op_output(contents, OpView::Write { key, value }) == Some((key, value)),
{
}

/// A delete answers with the pair it removed, or with nothing when the key
/// was absent; a read answers with the pair stored under its key.
pub proof fn lemma_delete_and_read_return_stored_pair(
    contents: Map<Seq<char>, Seq<char>>,
    key: Seq<char>,
)
    ensures
        op_output(contents, OpView::Delete { key }) == if contents.contains_key(key) {
            Some((key, contents[key]))
        } else {
            None
        },
        op_output(contents, OpView::Read { key }) == if contents.contains_key(key) {
            Some((key, contents[key]))
        } else {
            None
        },
{
}

/// The number that a sequence of decimal digits denotes.
pub open spec fn decimal_value(digits: Seq<char>) -> nat
    decreases digits.len(),
{
    if digits.len() == 0 {
        0
    } else {
        decimal_value(digits.drop_last()) * 10 + ((digits.last() as u32) - ('0' as u32)) as nat
    }
}

/// The decimal numeral of `n` consists of digits, denotes `n`, and has no
/// leading zero.
pub proof fn lemma_decimal_denotes_its_number(n: nat)
    ensures
        decimal(n).len() >= 1,
        forall|i: int| 0 <= i < decimal(n).len() ==> '0' <= #[trigger] decimal(n)[i] <= '9',
        decimal_value(decimal(n)) == n,
        n > 0 ==> decimal(n)[0] != '0',
    decreases n,
{
    if n < 10 {
        lemma_digit_value(n);
        assert(decimal(n) =~= seq![crate::text::digit_char(n)]);
        assert(decimal(n).drop_last() =~= Seq::<char>::empty());
        assert(decimal_value(decimal(n).drop_last()) == 0);
        assert(decimal(n).last() == crate::text::digit_char(n));
        assert(decimal_value(decimal(n)) == decimal_value(decimal(n).drop_last()) * 10 + ((decimal(n).last() as u32) - ('0' as u32)) as nat);
    } else {
        lemma_decimal_denotes_its_number(n / 10);
        lemma_digit_value(n % 10);
        let d = decimal(n);
        assert(n == (n / 10) * 10 + n % 10);
        assert(decimal(n).last() == crate::text::digit_char(n % 10));
        assert(decimal_value(decimal(n)) == decimal_value(decimal(n).drop_last()) * 10 + ((decimal(n).last() as u32) - ('0' as u32)) as nat);
        assert(d.drop_last() =~= decimal(n / 10));
        assert(d[0] == decimal(n / 10)[0]);
        assert forall|i: int| 0 <= i < d.len() implies '0' <= #[trigger] d[i] <= '9' by {
            if i < d.len() - 1 {
                assert(d[i] == decimal(n / 10)[i]);
            }
        }
    }
}

/// A digit character denotes its digit.
proof fn lemma_digit_value(d: nat)
    requires
        d < 10,
    ensures
        '0' <= crate::text::digit_char(d) <= '9',
        ((crate::text::digit_char(d) as u32) - ('0' as u32)) as nat == d,
        d > 0 ==> crate::text::digit_char(d) != '0',
{
}

/// The number that a little-endian sequence of seven-bit groups denotes,
/// the high bit of each byte ignored.
pub open spec fn varint_value(bytes: Seq<u8>) -> nat
    decreases bytes.len(),
{
    if bytes.len() == 0 {
        0
    } else {
        (bytes[0] % 128) as nat + 128 * varint_value(bytes.drop_first())
    }
}

/// The varint of `v` denotes `v`, and its high bits mark every byte but
/// the last as continued: it is read back unambiguously.
pub proof fn lemma_varint_decodes(v: nat)
    ensures
        varint(v).len() >= 1,
        varint_value(varint(v)) == v,
        varint(v).last() < 128,
        forall|i: int| 0 <= i < varint(v).len() - 1 ==> #[trigger] varint(v)[i] >= 128,
    decreases v,
{
    if v >= 128 {
        lemma_varint_decodes(v / 128);
        let b = varint(v);
        let first: u8 = (v % 128 + 128) as u8;
        assert(b[0] == first);
        assert(first % 128 == v % 128);
        assert(v == v % 128 + 128 * (v / 128));
        assert(varint_value(b) == (b[0] % 128) as nat + 128 * varint_value(b.drop_first()));
        assert(b.drop_first() =~= varint(v / 128));
        assert forall|i: int| 0 <= i < b.len() - 1 implies #[trigger] b[i] >= 128 by {
            if i > 0 {
                assert(b[i] == varint(v / 128)[i - 1]);
            }
        }
    } else {
        assert(varint(v).drop_first() =~= Seq::<u8>::empty());
        assert(varint(v)[0] == v as u8);
        assert(varint_value(varint(v)) == (varint(v)[0] % 128) as nat + 128 * varint_value(varint(v).drop_first()));
    }
}


/// Appending characters other than a space extends the last piece.
proof fn lemma_split_append_word(s: Seq<char>, t: Seq<char>)
    requires
        forall|i: int| 0 <= i < t.len() ==> #[trigger] t[i] != ' ',
    ensures
        split_on_space(s + t) == split_on_space(s).update(
            split_on_space(s).len() - 1,
            split_on_space(s).last() + t,
        ),
    decreases t.len(),
{
    lemma_split_nonempty(s);
    if t.len() == 0 {
        assert(s + t =~= s);
        assert(split_on_space(s).last() + t =~= split_on_space(s).last());
        assert(split_on_space(s).update(split_on_space(s).len() - 1, split_on_space(s).last())
            =~= split_on_space(s));
    } else {
        let t0 = t.drop_last();
        lemma_split_append_word(s, t0);
        assert((s + t).drop_last() =~= s + t0);
        assert((s + t).last() == t.last());
        assert((split_on_space(s).last() + t0).push(t.last()) =~= split_on_space(s).last() + t);
        assert(split_on_space(s + t) =~= split_on_space(s).update(
            split_on_space(s).len() - 1,
            split_on_space(s).last() + t,
        ));
    }
}

/// Appending a space starts a new, empty piece.
proof fn lemma_split_append_space(s: Seq<char>)
    ensures
        split_on_space(s.push(' ')) == split_on_space(s).push(Seq::<char>::empty()),
{
    assert(s.push(' ').drop_last() =~= s);
}

/// The pieces of a word that holds no space: the word itself.
proof fn lemma_split_word(w: Seq<char>)
    requires
        forall|i: int| 0 <= i < w.len() ==> #[trigger] w[i] != ' ',
    ensures
        split_on_space(w) == seq![w],
{
    lemma_split_append_word(Seq::<char>::empty(), w);
    assert(Seq::<char>::empty() + w =~= w);
    assert(seq![Seq::<char>::empty()].update(0, Seq::<char>::empty() + w) =~= seq![w]);
}

/// The pieces of `a b`, for words `a` and `b` without spaces.
proof fn lemma_split_two_words(a: Seq<char>, b: Seq<char>)
    requires
        forall|i: int| 0 <= i < a.len() ==> #[trigger] a[i] != ' ',
        forall|i: int| 0 <= i < b.len() ==> #[trigger] b[i] != ' ',
    ensures
        split_on_space(a.push(' ') + b) == seq![a, b],
{
    lemma_split_word(a);
    lemma_split_append_space(a);
    lemma_split_append_word(a.push(' '), b);
    assert(Seq::<char>::empty() + b =~= b);
    assert(seq![a, Seq::<char>::empty()].update(1, Seq::<char>::empty() + b) =~= seq![a, b]);
}

/// A word spelled, letter by letter, as in `lower` or as in `upper`, where
/// `upper` is `lower` in ASCII capitals, matches the keyword `lower`.
proof fn lemma_spelled_keyword(w: Seq<char>, lower: Seq<char>, upper: Seq<char>)
    requires
        w.len() == lower.len() == upper.len(),
        forall|i: int| 0 <= i < w.len() ==> #[trigger] w[i] == lower[i] || w[i] == upper[i],
        forall|i: int|
            0 <= i < lower.len() ==> ascii_fold(#[trigger] upper[i]) == ascii_fold(lower[i]),
    ensures
        eq_ignore_ascii_case(w, lower),
{
    assert forall|i: int| 0 <= i < w.len() implies ascii_fold(#[trigger] w[i]) == ascii_fold(
        lower[i],
    ) by {
        if w[i] == upper[i] {
            assert(ascii_fold(upper[i]) == ascii_fold(lower[i]));
        }
    }
}

/// Capital letters fold to the letters of the keywords.
proof fn lemma_keyword_capitals()
    ensures
        forall|i: int|
            0 <= i < "write"@.len() ==> ascii_fold(#[trigger] "WRITE"@[i]) == ascii_fold(
                "write"@[i],
            ),
        forall|i: int|
            0 <= i < "read"@.len() ==> ascii_fold(#[trigger] "READ"@[i]) == ascii_fold("read"@[i]),
        forall|i: int|
            0 <= i < "delete"@.len() ==> ascii_fold(#[trigger] "DELETE"@[i]) == ascii_fold(
                "delete"@[i],
            ),
        "write"@.len() == 5,
        "WRITE"@.len() == 5,
        "read"@.len() == 4,
        "READ"@.len() == 4,
        "delete"@.len() == 6,
        "DELETE"@.len() == 6,
{
    reveal_strlit("write");
    reveal_strlit("WRITE");
    reveal_strlit("read");
    reveal_strlit("READ");
    reveal_strlit("delete");
    reveal_strlit("DELETE");
    assert("write"@ =~= seq!['w', 'r', 'i', 't', 'e']);
    assert("WRITE"@ =~= seq!['W', 'R', 'I', 'T', 'E']);
    assert("read"@ =~= seq!['r', 'e', 'a', 'd']);
    assert("READ"@ =~= seq!['R', 'E', 'A', 'D']);
    assert("delete"@ =~= seq!['d', 'e', 'l', 'e', 't', 'e']);
    assert("DELETE"@ =~= seq!['D', 'E', 'L', 'E', 'T', 'E']);
}

/// A read query `<read> <key>` asks to read exactly `key`, as written, for
/// any key without spaces and any spelling of the keyword in lower or upper
/// case letters.
pub proof fn lemma_read_query_reads_key_as_written(word: Seq<char>, key: Seq<char>)
    requires
        word.len() == 4,
        forall|i: int| 0 <= i < 4 ==> #[trigger] word[i] == "read"@[i] || word[i] == "READ"@[i],
        forall|i: int| 0 <= i < key.len() ==> #[trigger] key[i] != ' ',
    ensures
        parse_query(word.push(' ') + key) == Ok::<OpView, Seq<char>>(OpView::Read { key }),
{
    lemma_keyword_capitals();
    lemma_spelled_keyword(word, "read"@, "READ"@);
    assert forall|i: int| 0 <= i < word.len() implies #[trigger] word[i] != ' ' by {
        reveal_strlit("read");
        reveal_strlit("READ");
    }
    lemma_split_two_words(word, key);
}

/// A delete query `<delete> <key>` asks to delete exactly `key`, as written.
pub proof fn lemma_delete_query_deletes_key_as_written(word: Seq<char>, key: Seq<char>)
    requires
        word.len() == 6,
        forall|i: int|
            0 <= i < 6 ==> #[trigger] word[i] == "delete"@[i] || word[i] == "DELETE"@[i],
        forall|i: int| 0 <= i < key.len() ==> #[trigger] key[i] != ' ',
    ensures
        parse_query(word.push(' ') + key) == Ok::<OpView, Seq<char>>(OpView::Delete { key }),
{
    lemma_keyword_capitals();
    lemma_spelled_keyword(word, "delete"@, "DELETE"@);
    assert forall|i: int| 0 <= i < word.len() implies #[trigger] word[i] != ' ' by {
        reveal_strlit("delete");
        reveal_strlit("DELETE");
    }
    lemma_split_two_words(word, key);
    assert(!eq_ignore_ascii_case(word, "write"@));
    assert(!eq_ignore_ascii_case(word, "read"@));
}

/// A write query `<write> <key> = <value>` asks to store exactly `value`
/// under exactly `key`, both as written.
pub proof fn lemma_write_query_writes_pair_as_written(
    word: Seq<char>,
    key: Seq<char>,
    value: Seq<char>,
)
    requires
        word.len() == 5,
        forall|i: int| 0 <= i < 5 ==> #[trigger] word[i] == "write"@[i] || word[i] == "WRITE"@[i],
        forall|i: int| 0 <= i < key.len() ==> #[trigger] key[i] != ' ',
        forall|i: int| 0 <= i < value.len() ==> #[trigger] value[i] != ' ',
    ensures
        parse_query(((word.push(' ') + key).push(' ').push('=').push(' ')) + value) == Ok::<
            OpView,
            Seq<char>,
        >(OpView::Write { key, value }),
{
    lemma_keyword_capitals();
    lemma_spelled_keyword(word, "write"@, "WRITE"@);
    assert forall|i: int| 0 <= i < word.len() implies #[trigger] word[i] != ' ' by {
        reveal_strlit("write");
        reveal_strlit("WRITE");
    }
    let q1 = word.push(' ') + key;
    lemma_split_two_words(word, key);
    let q2 = q1.push(' ');
    lemma_split_append_space(q1);
    let eq = seq!['='];
    lemma_split_append_word(q2, eq);
    assert(q2 + eq =~= q2.push('='));
    assert(Seq::<char>::empty() + eq =~= eq);
    let q3 = q2.push('=');
    assert(split_on_space(q3) =~= seq![word, key, eq]);
    lemma_split_append_space(q3);
    let q4 = q3.push(' ');
    lemma_split_append_word(q4, value);
    assert(Seq::<char>::empty() + value =~= value);
    assert(split_on_space(q4 + value) =~= seq![word, key, eq, value]);
}


/// Each request line reaches its page: `GET /` the home page file,
/// `GET /sleep` the sleep page file, `GET /create-kv` a message about the
/// store, `GET /write` an empty answer, and any other line the 404 page.
pub proof fn lemma_routes_serve_their_pages(line: Seq<char>, kv_created: bool)
    ensures
        route_of("GET / HTTP/1.1"@) == Route::Home,
        page_of(Route::Home, kv_created) == ("HTTP/1.1 200 OK"@, "pages/home.html"@, ""@),
        route_of("GET /sleep HTTP/1.1"@) == Route::Sleep,
        page_of(Route::Sleep, kv_created) == ("HTTP/1.1 200 OK"@, "pages/sleep.html"@, ""@),
        route_of("GET /create-kv HTTP/1.1"@) == Route::CreateKv,
        page_of(Route::CreateKv, kv_created) == (
            "HTTP/1.1 200 OK"@,
            ""@,
            if kv_created {
                "my_kv Created Successfully"@
            } else {
                "Failed to create my_kv"@
            },
        ),
        route_of("GET /write HTTP/1.1"@) == Route::Write,
        page_of(Route::Write, kv_created) == (""@, ""@, ""@),
        line != "GET / HTTP/1.1"@ && line != "GET /sleep HTTP/1.1"@ && line
            != "GET /create-kv HTTP/1.1"@ && line != "GET /write HTTP/1.1"@ ==> route_of(line)
            == Route::NotFound,
        page_of(Route::NotFound, kv_created) == ("HTTP/1.1 404 OK"@, "pages/404.html"@, ""@),
{
    reveal_strlit("GET / HTTP/1.1");
    reveal_strlit("GET /sleep HTTP/1.1");
    reveal_strlit("GET /create-kv HTTP/1.1");
    reveal_strlit("GET /write HTTP/1.1");
    assert("GET /sleep HTTP/1.1"@[5] != "GET /write HTTP/1.1"@[5]);
    assert("GET /sleep HTTP/1.1"@ != "GET / HTTP/1.1"@);
    assert("GET /sleep HTTP/1.1"@ != "GET /create-kv HTTP/1.1"@);
    assert("GET /sleep HTTP/1.1"@ != "GET /write HTTP/1.1"@);
    assert("GET /create-kv HTTP/1.1"@.len() == 23);
    assert("GET / HTTP/1.1"@.len() == 14);
    assert("GET /create-kv HTTP/1.1"@ != "GET / HTTP/1.1"@);
    assert("GET /write HTTP/1.1"@ != "GET / HTTP/1.1"@);
    assert("GET /write HTTP/1.1"@ != "GET /create-kv HTTP/1.1"@);
}

/// A `string` field of the log: absent for an empty string, else the key of
/// a length-delimited field, the varint of the UTF-8 byte length, and the
/// UTF-8 bytes.
pub proof fn lemma_string_field_layout(tag: nat, s: Seq<char>)
    ensures
        s.len() == 0 ==> string_field(tag, s) == Seq::<u8>::empty(),
        s.len() > 0 ==> string_field(tag, s) == varint(tag * 8 + 2) + varint(
            encode_utf8(s).len(),
        ) + encode_utf8(s),
{
}

/// The field that carries an operation: tag 1 for a write (a message with
/// the key as field 1 and the value as field 2), tag 2 for a read and 3 for
/// a delete (a message with the key as field 1); each is length-delimited,
/// its length a varint of the body's byte count.
pub proof fn lemma_operation_field_layout(op: OpView)
    ensures
        ({
            let (tag, body) = match op {
                OpView::Write { key, value } => (1nat, string_field(1, key) + string_field(2, value)),
                OpView::Read { key } => (2nat, string_field(1, key)),
                OpView::Delete { key } => (3nat, string_field(1, key)),
            };
            &&& op_field_bytes(op) == varint(tag * 8 + 2) + varint(body.len()) + body
            &&& operation_bytes(Some(op)) == op_field_bytes(op)
            &&& operation_bytes(None) == Seq::<u8>::empty()
        }),
{
}

/// A log record: the sequence number as varint field 1 (absent when 0),
/// then the operation request as length-delimited field 2.
pub proof fn lemma_log_record_layout(w: WalView)
    ensures
        wal_bytes(w) == (if w.sq_no == 0 {
            Seq::<u8>::empty()
        } else {
            varint(8) + varint(w.sq_no as nat)
        }) + match w.operation {
            Some(a) => varint(18) + varint(operation_bytes(a).len()) + operation_bytes(a),
            None => Seq::<u8>::empty(),
        },
{
}


/// A read finds the value stored under its key, with that key, or nothing
/// when the key is absent.
pub proof fn lemma_read_finds_stored_value(contents: Map<Seq<char>, Seq<char>>, key: Seq<char>)
    ensures
        contents.contains_key(key) ==> read_result(contents, key) == Some((key, contents[key])),
        !contents.contains_key(key) ==> read_result(contents, key) is None,
{
}

/// What each operation does to the map: a write maps its key to its value,
/// a delete removes its key, every other key keeps its value, and a read
/// changes nothing.
pub proof fn lemma_operations_on_the_map(
    contents: Map<Seq<char>, Seq<char>>,
    op: OpView,
    other: Seq<char>,
)
    ensures
        op matches OpView::Write { key, value } ==> apply_op(contents, op).contains_key(key)
            && apply_op(contents, op)[key] == value,
        op matches OpView::Delete { key } ==> !apply_op(contents, op).contains_key(key),
        op is Read ==> apply_op(contents, op) == contents,
        other != op_key(op) ==> (apply_op(contents, op).contains_key(other)
            == contents.contains_key(other)),
        other != op_key(op) && contents.contains_key(other) ==> apply_op(contents, op)[other]
            == contents[other],
{
}

/// Committing an operation applies it to the stored map under the sequence
/// number that its log record carries, and keeps the project name.
pub proof fn lemma_commit_applies_logged_operation(s: StoreView, op: OpView)
    requires
        s.next_seq_no < u64::MAX,
    ensures
        ({
            let after = committed(staged(s, op), op);
            &&& log_record(s, op) == wal_bytes(
                WalView { sq_no: s.next_seq_no, operation: Some(Some(op)) },
            )
            &&& after.storage.sq_no == s.next_seq_no
            &&& after.storage.contents == apply_op(s.storage.contents, op)
            &&& after.pending is None
            &&& after.project_name == s.project_name
            &&& staged(s, op).storage == s.storage
            &&& staged(s, op).next_seq_no == s.next_seq_no
            &&& staged(s, op).pending == Some(op)
        }),
{
}


/// A keyword alone is refused with the syntax error of its operation, and a
/// query whose first word is no keyword is refused as illegal; the messages
/// are fixed texts.
pub proof fn lemma_refused_queries(word: Seq<char>, q: Seq<char>)
    ensures
        word.len() == 4 && (forall|i: int|
            0 <= i < 4 ==> #[trigger] word[i] == "read"@[i] || word[i] == "READ"@[i])
            ==> parse_query(word) == Err::<OpView, Seq<char>>(
            "Read Operation Syntax Error \n"@,
        ),
        word.len() == 6 && (forall|i: int|
            0 <= i < 6 ==> #[trigger] word[i] == "delete"@[i] || word[i] == "DELETE"@[i])
            ==> parse_query(word) == Err::<OpView, Seq<char>>(
            "Delete Operation Syntax Error \n"@,
        ),
        word.len() == 5 && (forall|i: int|
            0 <= i < 5 ==> #[trigger] word[i] == "write"@[i] || word[i] == "WRITE"@[i])
            ==> parse_query(word) == Err::<OpView, Seq<char>>(
            "Write Operation Syntax Error \n"@,
        ),
        !eq_ignore_ascii_case(split_on_space(q)[0], "write"@) && !eq_ignore_ascii_case(
            split_on_space(q)[0],
            "read"@,
        ) && !eq_ignore_ascii_case(split_on_space(q)[0], "delete"@) ==> parse_query(q) == Err::<
            OpView,
            Seq<char>,
        >(
            "Syntax Error:\nIllegal Query, Coundn't find any operation in query, please write query using correct syntax."@,
        ),
{
    lemma_keyword_capitals();
    reveal_strlit("write");
    reveal_strlit("WRITE");
    reveal_strlit("read");
    reveal_strlit("READ");
    reveal_strlit("delete");
    reveal_strlit("DELETE");
    if word.len() == 4 && (forall|i: int|
        0 <= i < 4 ==> #[trigger] word[i] == "read"@[i] || word[i] == "READ"@[i]) {
        lemma_spelled_keyword(word, "read"@, "READ"@);
        lemma_split_word(word);
    }
    if word.len() == 6 && (forall|i: int|
        0 <= i < 6 ==> #[trigger] word[i] == "delete"@[i] || word[i] == "DELETE"@[i]) {
        lemma_spelled_keyword(word, "delete"@, "DELETE"@);
        lemma_split_word(word);
    }
    if word.len() == 5 && (forall|i: int|
        0 <= i < 5 ==> #[trigger] word[i] == "write"@[i] || word[i] == "WRITE"@[i]) {
        lemma_spelled_keyword(word, "write"@, "WRITE"@);
        lemma_split_word(word);
    }
}


/// A response to a page with a file carries the file's content, a message
/// page its message, each after a `Content-Length` header whose numeral
/// denotes the body's length in UTF-8 bytes; a page with neither answers
/// with the status line alone.
pub proof fn lemma_response_text(
    status_line: Seq<char>,
    filename: Seq<char>,
    msg: Seq<char>,
    content: Seq<char>,
)
    ensures
        ({
            let body = if filename.len() > 0 {
                content
            } else {
                msg
            };
            let digits = decimal(encode_utf8(body).len());
            &&& filename.len() > 0 || msg.len() > 0 ==> page_response(
                status_line,
                filename,
                msg,
                content,
            ) == status_line + "\r\nContent-Length: "@ + digits + " \r\n\r\n "@ + body
            &&& decimal_value(digits) == encode_utf8(body).len()
            &&& filename.len() == 0 && msg.len() == 0 ==> page_response(
                status_line,
                filename,
                msg,
                content,
            ) == status_line + "\r\n\r\n"@
        }),
{
    let body = if filename.len() > 0 {
        content
    } else {
        msg
    };
    lemma_decimal_denotes_its_number(encode_utf8(body).len());
    assert(response_with_body(status_line, body) == status_line + "\r\nContent-Length: "@
        + decimal(encode_utf8(body).len()) + " \r\n\r\n "@ + body);
}

} // verus!
