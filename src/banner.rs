//! The rows of the start-up banner: a key and a value, padded so that the
//! closing border lands at a fixed byte width.

use vstd::prelude::*;
use vstd::utf8::encode_utf8;

verus! {

pub const ROW_PREFIX: &'static str = "\u{2551}  ";

pub const ROW_SUFFIX: &'static str = " \u{2551}";

/// The row up to its padding.
pub open spec fn row_content(key: Seq<char>, value: Seq<char>) -> Seq<char> {
    ROW_PREFIX@ + key + ": "@ + value
}

/// The length in bytes of the UTF-8 encoding of `s`, as `str::len` reports
/// it.
pub open spec fn byte_len(s: Seq<char>) -> usize {
    encode_utf8(s).len() as usize
}

/// Spaces needed so that content and suffix fill `total_width` bytes; none
/// when they already exceed it.
pub open spec fn row_padding(content: Seq<char>, total_width: usize) -> nat {
    let used = byte_len(content);
    let suffix = byte_len(ROW_SUFFIX@);
    if used > total_width || total_width - used < suffix {
        0
    } else {
        (total_width - used - suffix) as nat
    }
}

pub open spec fn spaces(n: nat) -> Seq<char> {
    Seq::new(n, |i: int| ' ')
}

/// One banner row: the key, the value, spaces up to `total_width` bytes,
/// and the closing border.
pub fn table_row(key: &str, value: &str, total_width: usize) -> (r: String)
    ensures
        r@ == row_content(key@, value@) + spaces(row_padding(row_content(key@, value@), total_width))
            + ROW_SUFFIX@,
{
    let mut row = String::from_str(ROW_PREFIX);
    row.append(key);
    row.append(": ");
    row.append(value);
    let ghost content = row@;
    let used = row.as_str().len();
    let suffix = ROW_SUFFIX.len();
    let pad: usize = if used > total_width || total_width - used < suffix {
        0
    } else {
        total_width - used - suffix
    };
    assert(pad == row_padding(content, total_width));
    let mut i: usize = 0;
    proof {
        reveal_strlit(" ");
        assert(row@ + spaces(0) =~= content);
    }
    while i < pad
        invariant
            i <= pad,
            row@ == content + spaces(i as nat),
            " "@ == seq![' '],
        decreases pad - i,
    {
        row.append(" ");
        assert(content + spaces(i as nat) + seq![' '] =~= content + spaces((i + 1) as nat));
        i = i + 1;
    }
    row.append(ROW_SUFFIX);
    row
}

} // verus!
