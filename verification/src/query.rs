//! The query language of the store: `Write <key> = <value>`, `Read <key>`,
//! `Delete <key>`, words separated by single spaces, keywords compared
//! without regard to ASCII case, keys and values taken verbatim.

use vstd::prelude::*;
use vstd::string::StrSliceExecFns;

use crate::proto::OpView;

verus! {

/// The pieces of `s` between its space characters, as `str::split(' ')`
/// yields them: empty pieces included, and at least one piece.
pub open spec fn split_on_space(s: Seq<char>) -> Seq<Seq<char>>
    decreases s.len(),
{
    if s.len() == 0 {
        seq![Seq::empty()]
    } else {
        let init = split_on_space(s.drop_last());
        if s.last() == ' ' {
            init.push(Seq::empty())
        } else {
            init.update(init.len() - 1, init.last().push(s.last()))
        }
    }
}

/// Splitting always yields at least one piece.
pub proof fn lemma_split_nonempty(s: Seq<char>)
    ensures
        split_on_space(s).len() >= 1,
    decreases s.len(),
{
    if s.len() > 0 {
        lemma_split_nonempty(s.drop_last());
    }
}

/// The code of `c` with ASCII upper-case letters mapped to lower case.
pub open spec fn ascii_fold(c: char) -> u32 {
    if 'A' <= c && c <= 'Z' {
        (c as u32 + 32) as u32
    } else {
        c as u32
    }
}

/// `a` and `b` are equal up to the case of ASCII letters.
pub open spec fn eq_ignore_ascii_case(a: Seq<char>, b: Seq<char>) -> bool {
    &&& a.len() == b.len()
    &&& forall|i: int| 0 <= i < a.len() ==> ascii_fold(#[trigger] a[i]) == ascii_fold(b[i])
}

/// Error for a write query of the wrong shape.
pub open spec fn write_syntax_error() -> Seq<char> {
    "Write Operation Syntax Error \n"@
}

/// Error for a read query of the wrong shape.
pub open spec fn read_syntax_error() -> Seq<char> {
    "Read Operation Syntax Error \n"@
}

/// Error for a delete query of the wrong shape.
pub open spec fn delete_syntax_error() -> Seq<char> {
    "Delete Operation Syntax Error \n"@
}

/// Error for a query that names no operation.
pub open spec fn illegal_query_error() -> Seq<char> {
    "Syntax Error:\nIllegal Query, Coundn't find any operation in query, please write query using correct syntax."@
}

/// The operation a query asks for, or the error message it is refused with.
///
/// The first word selects the operation when it equals `write`, `read` or
/// `delete` up to ASCII case. A write takes exactly four words with `=` as
/// the third; a read or a delete exactly two. The key and value are the
/// words themselves, case preserved.
pub open spec fn parse_query(q: Seq<char>) -> Result<OpView, Seq<char>> {
    let words = split_on_space(q);
    if eq_ignore_ascii_case(words[0], "write"@) {
        if words.len() != 4 || words[2] != seq!['='] {
            Err(write_syntax_error())
        } else {
            Ok(OpView::Write { key: words[1], value: words[3] })
        }
    } else if eq_ignore_ascii_case(words[0], "read"@) {
        if words.len() != 2 {
            Err(read_syntax_error())
        } else {
            Ok(OpView::Read { key: words[1] })
        }
    } else if eq_ignore_ascii_case(words[0], "delete"@) {
        if words.len() != 2 {
            Err(delete_syntax_error())
        } else {
            Ok(OpView::Delete { key: words[1] })
        }
    } else {
        Err(illegal_query_error())
    }
}

/// Splits `q` at every space character.
pub(crate) fn split_query(q: &str) -> (words: Vec<String>)
    ensures
        words@.len() == split_on_space(q@).len(),
        forall|i: int| 0 <= i < words@.len() ==> #[trigger] words@[i]@ == split_on_space(q@)[i],
{
    let n = q.unicode_len();
    let mut words: Vec<String> = Vec::new();
    let mut start: usize = 0;
    let mut i: usize = 0;
    while i < n
        invariant
            n == q@.len(),
            start <= i <= n,
            words@.len() + 1 == split_on_space(q@.take(i as int)).len(),
            forall|j: int|
                0 <= j < words@.len() ==> #[trigger] words@[j]@ == split_on_space(
                    q@.take(i as int),
                )[j],
            split_on_space(q@.take(i as int)).last() == q@.subrange(start as int, i as int),
        decreases n - i,
    {
        let ghost before = split_on_space(q@.take(i as int));
        assert(q@.take(i + 1).drop_last() =~= q@.take(i as int));
        let c = q.get_char(i);
        if c == ' ' {
            let word = q.substring_char(start, i).to_owned();
            words.push(word);
            start = i + 1;
        } else {
            assert(q@.subrange(start as int, i + 1) =~= q@.subrange(start as int, i as int).push(c));
        }
        i = i + 1;
    }
    assert(q@.take(n as int) =~= q@);
    let last = q.substring_char(start, n).to_owned();
    words.push(last);
    words
}

/// Whether `word` equals `keyword` up to ASCII case.
///
/// For the keywords `write`, `read` and `delete` this is the same as asking
/// whether the lower-case form of `word` is the keyword: the only characters
/// whose Unicode lower-case forms are ASCII letters are the ASCII letters
/// themselves and the Kelvin sign, whose lower case `k` no keyword holds.
pub(crate) fn matches_keyword(word: &String, keyword: &str) -> (r: bool)
    ensures
        r == eq_ignore_ascii_case(word@, keyword@),
{
    let w = word.as_str();
    let n = w.unicode_len();
    if n != keyword.unicode_len() {
        return false;
    }
    let mut i: usize = 0;
    while i < n
        invariant
            n == w@.len() == keyword@.len(),
            w@ == word@,
            i <= n,
            forall|j: int| 0 <= j < i ==> ascii_fold(#[trigger] w@[j]) == ascii_fold(keyword@[j]),
        decreases n - i,
    {
        if fold(w.get_char(i)) != fold(keyword.get_char(i)) {
            return false;
        }
        i = i + 1;
    }
    true
}

/// The code of `c` with ASCII upper-case letters mapped to lower case.
fn fold(c: char) -> (r: u32)
    ensures
        r == ascii_fold(c),
{
    if 'A' <= c && c <= 'Z' {
        c as u32 + 32
    } else {
        c as u32
    }
}

} // verus!
