//! Building blocks for the messages that the library hands to its callers.

use vstd::prelude::*;
use vstd::string::*;

verus! {

/// `label: detail`, the shape of every message that adds context to an error.
pub open spec fn prefixed_text(label: Seq<char>, detail: Seq<char>) -> Seq<char> {
    label + ": "@ + detail
}

/// The decimal digit `n`.
pub open spec fn digit_text(n: nat) -> Seq<char> {
    if n == 0 {
        "0"@
    } else if n == 1 {
        "1"@
    } else if n == 2 {
        "2"@
    } else if n == 3 {
        "3"@
    } else if n == 4 {
        "4"@
    } else if n == 5 {
        "5"@
    } else if n == 6 {
        "6"@
    } else if n == 7 {
        "7"@
    } else if n == 8 {
        "8"@
    } else {
        "9"@
    }
}

/// `n` in decimal, without leading zeros.
pub open spec fn decimal_text(n: nat) -> Seq<char>
    decreases n,
{
    if n < 10 {
        digit_text(n)
    } else {
        decimal_text(n / 10) + digit_text(n % 10)
    }
}

/// Appends the characters of several pieces, with `separator` between two neighbours.
pub open spec fn joined_text(pieces: Seq<Seq<char>>, separator: Seq<char>) -> Seq<char>
    decreases pieces.len(),
{
    if pieces.len() == 0 {
        Seq::empty()
    } else if pieces.len() == 1 {
        pieces[0]
    } else {
        joined_text(pieces.drop_last(), separator) + separator + pieces.last()
    }
}

/// The characters of every string in `items`.
pub open spec fn texts(items: Seq<String>) -> Seq<Seq<char>> {
    items.map_values(|item: String| item@)
}

/// An owned copy of `text`.
pub fn owned(text: &str) -> (copy: String)
    ensures
        copy@ == text@,
{
    text.to_string()
}

/// `label: detail`.
pub fn prefixed(label: &str, detail: &str) -> (message: String)
    ensures
        message@ == prefixed_text(label@, detail@),
{
    owned(label).concat(": ").concat(detail)
}

/// Three pieces in a row.
pub fn concat3(a: &str, b: &str, c: &str) -> (message: String)
    ensures
        message@ == a@ + b@ + c@,
{
    owned(a).concat(b).concat(c)
}

/// Four pieces in a row.
pub fn concat4(a: &str, b: &str, c: &str, d: &str) -> (message: String)
    ensures
        message@ == a@ + b@ + c@ + d@,
{
    owned(a).concat(b).concat(c).concat(d)
}

fn digit(n: u32) -> (text: &'static str)
    requires
        n < 10,
    ensures
        text@ == digit_text(n as nat),
{
    match n {
        0 => "0",
        1 => "1",
        2 => "2",
        3 => "3",
        4 => "4",
        5 => "5",
        6 => "6",
        7 => "7",
        8 => "8",
        _ => "9",
    }
}

/// `n` in decimal.
pub fn decimal(n: u32) -> (text: String)
    ensures
        text@ == decimal_text(n as nat),
    decreases n,
{
    if n < 10 {
        owned(digit(n))
    } else {
        decimal(n / 10).concat(digit(n % 10))
    }
}

/// Whether `wanted` is one of `items`.
pub fn contains_text(items: &Vec<String>, wanted: &String) -> (found: bool)
    ensures
        found == texts(items@).contains(wanted@),
{
    let mut i: usize = 0;
    while i < items.len()
        invariant
            i <= items@.len(),
            forall|j: int| 0 <= j < i ==> texts(items@)[j] != wanted@,
        decreases items@.len() - i,
    {
        if items[i] == *wanted {
            assert(texts(items@)[i as int] == wanted@);
            return true;
        }
        i += 1;
    }
    false
}

/// A copy of `bytes`.
pub fn copy_bytes(bytes: &Vec<u8>) -> (copy: Vec<u8>)
    ensures
        copy@ == bytes@,
{
    bytes.clone()
}

/// A copy of `items`.
pub fn copy_texts(items: &Vec<String>) -> (copy: Vec<String>)
    ensures
        copy@ == items@,
{
    let copy: Vec<String> = items.clone();
    assert(copy@ =~= items@);
    copy
}

/// Whether `text` begins with `prefix`.
pub fn starts_with(text: &str, prefix: &str) -> (found: bool)
    ensures
        found == prefix@.is_prefix_of(text@),
{
    let length: usize = prefix.unicode_len();
    if text.unicode_len() < length {
        return false;
    }
    let mut i: usize = 0;
    while i < length
        invariant
            i <= length,
            length == prefix@.len(),
            length <= text@.len(),
            forall|j: int| 0 <= j < i ==> text@[j] == prefix@[j],
        decreases length - i,
    {
        if text.get_char(i) != prefix.get_char(i) {
            assert(text@.subrange(0, prefix@.len() as int)[i as int] != prefix@[i as int]);
            return false;
        }
        i += 1;
    }
    assert(text@.subrange(0, prefix@.len() as int) =~= prefix@);
    true
}

/// A message that adds context begins with the context and ends with the error, with a colon and a
/// space between them.
pub proof fn law_context_comes_before_the_error(label: Seq<char>, detail: Seq<char>)
    ensures
        ({
            let text = prefixed_text(label, detail);
            let n = label.len() as int;
            &&& text.len() == n + 2 + detail.len()
            &&& text.take(n) == label
            &&& text[n] == ':'
            &&& text[n + 1] == ' '
            &&& text.skip(n + 2) == detail
        }),
{
    reveal_strlit(": ");
    let text = prefixed_text(label, detail);
    let n = label.len() as int;
    assert(text.take(n) =~= label);
    assert(text.skip(n + 2) =~= detail);
}

/// The number that a text of decimal digits stands for.
pub open spec fn decimal_value(text: Seq<char>) -> int
    decreases text.len(),
{
    if text.len() == 0 {
        0
    } else {
        10 * decimal_value(text.drop_last()) + (text.last() as int - '0' as int)
    }
}

proof fn lemma_digit_text(n: nat)
    requires
        n < 10,
    ensures
        digit_text(n).len() == 1,
        digit_text(n)[0] as int - '0' as int == n,
{
    reveal_strlit("0");
    reveal_strlit("1");
    reveal_strlit("2");
    reveal_strlit("3");
    reveal_strlit("4");
    reveal_strlit("5");
    reveal_strlit("6");
    reveal_strlit("7");
    reveal_strlit("8");
    reveal_strlit("9");
}

/// A number that is written down is read back, and begins with no zero unless it is zero.
pub proof fn law_decimal_read_back(n: nat)
    ensures
        decimal_value(decimal_text(n)) == n,
        decimal_text(n).len() > 0,
        n > 0 ==> decimal_text(n)[0] != '0',
        n == 0 ==> decimal_text(n).len() == 1,
    decreases n,
{
    let text = decimal_text(n);
    lemma_digit_text(n % 10);
    reveal_with_fuel(decimal_value, 2);
    if n < 10 {
        assert(text.drop_last() =~= Seq::<char>::empty());
    } else {
        law_decimal_read_back(n / 10);
        assert(text.drop_last() =~= decimal_text(n / 10));
    }
}

/// Pieces are joined in order: a list of one piece is that piece, no piece gives no text, and two
/// lists in a row give both texts with the separator between them.
pub proof fn law_pieces_are_joined_in_order(
    first: Seq<Seq<char>>,
    second: Seq<Seq<char>>,
    piece: Seq<char>,
    separator: Seq<char>,
)
    requires
        first.len() > 0,
        second.len() > 0,
    ensures
        joined_text(Seq::empty(), separator) == Seq::<char>::empty(),
        joined_text(seq![piece], separator) == piece,
        joined_text(first + second, separator) == joined_text(first, separator) + separator
            + joined_text(second, separator),
    decreases second.len(),
{
    let all = first + second;
    if second.len() == 1 {
        assert(all.drop_last() =~= first);
    } else {
        let fewer = second.drop_last();
        law_pieces_are_joined_in_order(first, fewer, piece, separator);
        assert(all.drop_last() =~= first + fewer);
        assert(joined_text(all, separator) =~= joined_text(first, separator) + separator
            + joined_text(second, separator));
    }
}

} // verus!
