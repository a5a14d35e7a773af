//! What holds of every text that is built or taken apart.

use crate::text::{
    decimal_text, digit_char, hex_text, opt_text, texts, trimmed, trimmed_end, trimmed_start,
    white_space,
};
use vstd::prelude::*;

verus! {

/// The texts of a list of strings are those of its strings, one by one and in order.
pub proof fn texts_are_those_of_the_strings(list: Seq<String>, i: int)
    requires
        0 <= i < list.len(),
    ensures
        texts(list).len() == list.len(),
        texts(list)[i] == list[i]@,
{
}

/// There is a text exactly where there is a string, and it is the string's.
pub proof fn optional_text_is_that_of_the_string(s: String)
    ensures
        opt_text(Some(s)) == Some(s@),
        opt_text(None) is None,
{
}

/// The white space is the tabs, the line and page breaks, and the spaces of Unicode.
pub proof fn white_space_is_listed(c: char)
    ensures
        white_space(c) <==> {
            ||| c == '\t'
            ||| c == '\n'
            ||| c == '\x0b'
            ||| c == '\x0c'
            ||| c == '\r'
            ||| c == ' '
            ||| c == '\u{85}'
            ||| c == '\u{a0}'
            ||| c == '\u{1680}'
            ||| '\u{2000}' <= c <= '\u{200a}'
            ||| c == '\u{2028}'
            ||| c == '\u{2029}'
            ||| c == '\u{202f}'
            ||| c == '\u{205f}'
            ||| c == '\u{3000}'
        },
{
}

proof fn start_is_white_space(s: Seq<char>) -> (from: int)
    ensures
        0 <= from <= s.len(),
        trimmed_start(s) == s.subrange(from, s.len() as int),
        forall|i: int| 0 <= i < from ==> white_space(#[trigger] s[i]),
        from < s.len() ==> !white_space(s[from]),
    decreases s.len(),
{
    if s.len() > 0 && white_space(s[0]) {
        let rest = s.drop_first();
        let from = start_is_white_space(rest);
        assert(rest.subrange(from, rest.len() as int) =~= s.subrange(from + 1, s.len() as int));
        assert forall|i: int| 0 <= i < from + 1 implies white_space(#[trigger] s[i]) by {
            if i > 0 {
                assert(s[i] == rest[i - 1]);
            }
        }
        if from < rest.len() {
            assert(s[from + 1] == rest[from]);
        }
        from + 1
    } else {
        assert(s.subrange(0, s.len() as int) =~= s);
        0
    }
}

proof fn end_is_white_space(s: Seq<char>) -> (to: int)
    ensures
        0 <= to <= s.len(),
        trimmed_end(s) == s.subrange(0, to),
        forall|i: int| to <= i < s.len() ==> white_space(#[trigger] s[i]),
        to > 0 ==> !white_space(s[to - 1]),
    decreases s.len(),
{
    if s.len() > 0 && white_space(s.last()) {
        let rest = s.drop_last();
        let to = end_is_white_space(rest);
        assert(rest.subrange(0, to) =~= s.subrange(0, to));
        assert forall|i: int| to <= i < s.len() implies white_space(#[trigger] s[i]) by {
            if i < s.len() - 1 {
                assert(s[i] == rest[i]);
            }
        }
        if to > 0 {
            assert(s[to - 1] == rest[to - 1]);
        }
        to
    } else {
        assert(s.subrange(0, s.len() as int) =~= s);
        s.len() as int
    }
}

/// Whether `s` from `from` to before `to` is all of `s` but the white space at its two ends.
pub open spec fn core_of(s: Seq<char>, from: int, to: int) -> bool {
    &&& 0 <= from <= to <= s.len()
    &&& forall|i: int| 0 <= i < from ==> white_space(#[trigger] s[i])
    &&& forall|i: int| to <= i < s.len() ==> white_space(#[trigger] s[i])
    &&& from < to ==> !white_space(s[from]) && !white_space(s[to - 1])
}

/// Trimming takes away white space at the two ends and nothing else, and leaves none there.
pub proof fn trimming_removes_outer_white_space(s: Seq<char>)
    ensures
        exists|from: int, to: int|
            #[trigger] core_of(s, from, to) && trimmed(s) == s.subrange(from, to),
{
    let from = start_is_white_space(s);
    let rest = trimmed_start(s);
    let to = end_is_white_space(rest);
    assert(rest.subrange(0, to) =~= s.subrange(from, from + to));
    assert forall|i: int| from + to <= i < s.len() implies white_space(#[trigger] s[i]) by {
        assert(s[i] == rest[i - from]);
    }
    if to > 0 {
        assert(s[from + to - 1] == rest[to - 1]);
    }
    assert(core_of(s, from, from + to));
}

/// The digits are the usual ones, in lower case.
pub proof fn digits_are_the_usual_ones(value: nat)
    requires
        value < 16,
    ensures
        digit_char(value) == "0123456789abcdef"@[value as int],
{
    reveal_strlit("0123456789abcdef");
}

/// The number that a text of decimal digits stands for.
pub open spec fn number_read(text: Seq<char>) -> int
    decreases text.len(),
{
    if text.len() == 0 {
        0
    } else {
        10 * number_read(text.drop_last()) + (text.last() as int - '0' as int)
    }
}

/// A number that is written in decimal notation is read back, and is written in decimal digits
/// without a leading zero.
pub proof fn decimal_number_is_read_back(n: nat)
    ensures
        number_read(decimal_text(n)) == n,
        decimal_text(n).len() > 0,
        forall|i: int|
            0 <= i < decimal_text(n).len() ==> '0' <= #[trigger] decimal_text(n)[i] <= '9',
        n > 0 ==> decimal_text(n)[0] != '0',
    decreases n,
{
    let text = decimal_text(n);
    if n < 10 {
        assert(text.drop_last() =~= Seq::<char>::empty());
        assert(text.last() == digit_char(n));
        assert(number_read(text.drop_last()) == 0);
        assert(text.last() as int - '0' as int == n);
    } else {
        decimal_number_is_read_back(n / 10);
        let before = decimal_text(n / 10);
        assert(text.drop_last() =~= before);
        assert(text.last() == digit_char(n % 10));
        assert(text.last() as int - '0' as int == n % 10);
        assert(number_read(text) == 10 * number_read(before) + n % 10);
        assert(text[0] == before[0]);
        assert forall|i: int| 0 <= i < text.len() implies '0' <= #[trigger] text[i] <= '9' by {
            if i < before.len() {
                assert(text[i] == before[i]);
            }
        }
    }
}

/// Each byte is written as two hexadecimal digits, the higher one first.
pub proof fn bytes_are_two_digits_each(bytes: Seq<u8>, i: int)
    requires
        0 <= i < bytes.len(),
    ensures
        hex_text(bytes).len() == 2 * bytes.len(),
        hex_text(bytes)[2 * i] == "0123456789abcdef"@[bytes[i] as int / 16],
        hex_text(bytes)[2 * i + 1] == "0123456789abcdef"@[bytes[i] as int % 16],
{
    assert((2 * i) % 2 == 0 && (2 * i) / 2 == i);
    assert((2 * i + 1) % 2 == 1 && (2 * i + 1) / 2 == i);
    digits_are_the_usual_ones(bytes[i] as nat / 16);
    digits_are_the_usual_ones(bytes[i] as nat % 16);
}

} // verus!
