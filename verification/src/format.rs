//! Textual formatting of list rows, counters and timestamps.
//!
//! Everything here is plain text construction — decimal writing, padding to
//! a column width, joining fields — specified character by character. The
//! one exception is the human-readable size label, which an outside
//! formatter computes; its result is named and carried through the contracts
//! unchanged.

use vstd::prelude::*;

use crate::item::{DateTimeValue, datetime_wf};

verus! {

/// Number of decimal digits of `n`.
pub open spec fn spec_digits(n: nat) -> nat
    decreases n,
{
    if n < 10 {
        1
    } else {
        1 + spec_digits(n / 10)
    }
}

/// The character of one decimal digit.
pub open spec fn digit_char(d: nat) -> char {
    if d == 0 {
        '0'
    } else if d == 1 {
        '1'
    } else if d == 2 {
        '2'
    } else if d == 3 {
        '3'
    } else if d == 4 {
        '4'
    } else if d == 5 {
        '5'
    } else if d == 6 {
        '6'
    } else if d == 7 {
        '7'
    } else if d == 8 {
        '8'
    } else {
        '9'
    }
}

/// Decimal writing of `n`, most significant digit first.
pub open spec fn dec_str(n: nat) -> Seq<char>
    decreases n,
{
    if n < 10 {
        seq![digit_char(n)]
    } else {
        dec_str(n / 10).push(digit_char(n % 10))
    }
}

/// `n` copies of one character (none when `n` is not positive).
pub open spec fn char_repeat(c: char, n: int) -> Seq<char>
    decreases n,
{
    if n <= 0 {
        Seq::empty()
    } else {
        char_repeat(c, n - 1).push(c)
    }
}

/// Left-align `s` in a field of `width` by padding with spaces on the right;
/// a longer `s` stays whole.
pub open spec fn pad_right(s: Seq<char>, width: int) -> Seq<char> {
    s + char_repeat(' ', width - s.len())
}

/// Right-align `s` in a field of `width` by padding with spaces on the left;
/// a longer `s` stays whole.
pub open spec fn pad_left(s: Seq<char>, width: int) -> Seq<char> {
    char_repeat(' ', width - s.len()) + s
}

/// Right-align `s` in a field of `width` by padding with zeros on the left.
pub open spec fn zero_pad(s: Seq<char>, width: int) -> Seq<char> {
    char_repeat('0', width - s.len()) + s
}

/// The decimal writing of `n` has exactly as many characters as `n` has
/// digits.
pub proof fn lemma_dec_str_len(n: nat)
    ensures
        dec_str(n).len() == spec_digits(n),
    decreases n,
{
    if n >= 10 {
        lemma_dec_str_len(n / 10);
    }
}

/// A coarse bound on the digit count, enough to rule out overflow.
pub proof fn lemma_digits_le(n: nat)
    ensures
        spec_digits(n) <= n + 1,
    decreases n,
{
    if n >= 10 {
        lemma_digits_le(n / 10);
    }
}

/// One decimal digit as a string.
fn digit_str(d: usize) -> (r: String)
    requires
        d < 10,
    ensures
        r@ == seq![digit_char(d as nat)],
{
    let r = if d == 0 {
        String::from_str("0")
    } else if d == 1 {
        String::from_str("1")
    } else if d == 2 {
        String::from_str("2")
    } else if d == 3 {
        String::from_str("3")
    } else if d == 4 {
        String::from_str("4")
    } else if d == 5 {
        String::from_str("5")
    } else if d == 6 {
        String::from_str("6")
    } else if d == 7 {
        String::from_str("7")
    } else if d == 8 {
        String::from_str("8")
    } else {
        String::from_str("9")
    };
    proof {
        reveal_strlit("0");
        reveal_strlit("1");
        reveal_strlit("2");
        reveal_strlit("3");
        reveal_strlit("4");
        reveal_strlit("5");
        reveal_strlit("6");
        reveal_strlit("7");
        reveal_strlit("8");
        reveal_strlit("9");
        assert(r@ =~= seq![digit_char(d as nat)]);
    }
    r
}

/// Decimal writing of `n`.
fn dec_string(n: usize) -> (r: String)
    ensures
        r@ == dec_str(n as nat),
    decreases n,
{
    if n < 10 {
        digit_str(n)
    } else {
        let mut s = dec_string(n / 10);
        let d = digit_str(n % 10);
        s.append(d.as_str());
        proof {
            assert(s@ =~= dec_str((n / 10) as nat).push(digit_char((n % 10) as nat)));
        }
        s
    }
}

/// Number of decimal digits of `n`: the width of the counter column.
pub fn digits(n: usize) -> (r: usize)
    ensures
        r as nat == spec_digits(n as nat),
    decreases n,
{
    if n < 10 {
        1
    } else {
        let d = digits(n / 10);
        proof {
            lemma_digits_le((n / 10) as nat);
        }
        1 + d
    }
}

/// Append `n` spaces.
fn push_spaces(s: &mut String, n: usize)
    ensures
        final(s)@ == old(s)@ + char_repeat(' ', n as int),
{
    let mut i: usize = 0;
    while i < n
        invariant
            i <= n,
            s@ =~= old(s)@ + char_repeat(' ', i as int),
        decreases n - i,
    {
        s.append(" ");
        proof {
            reveal_strlit(" ");
            assert(s@ =~= old(s)@ + char_repeat(' ', i as int + 1));
        }
        i += 1;
    }
    assert(s@ =~= old(s)@ + char_repeat(' ', n as int));
}

/// Append `n` zeros.
fn push_zeros(s: &mut String, n: usize)
    ensures
        final(s)@ == old(s)@ + char_repeat('0', n as int),
{
    let mut i: usize = 0;
    while i < n
        invariant
            i <= n,
            s@ =~= old(s)@ + char_repeat('0', i as int),
        decreases n - i,
    {
        s.append("0");
        proof {
            reveal_strlit("0");
            assert(s@ =~= old(s)@ + char_repeat('0', i as int + 1));
        }
        i += 1;
    }
    assert(s@ =~= old(s)@ + char_repeat('0', n as int));
}

/// Append the decimal writing of `n`, zero-padded on the left to `width`.
fn push_zero_padded(s: &mut String, n: usize, width: usize)
    ensures
        final(s)@ == old(s)@ + zero_pad(dec_str(n as nat), width as int),
{
    let d = digits(n);
    proof {
        lemma_digits_le(n as nat);
        lemma_dec_str_len(n as nat);
    }
    if width > d {
        push_zeros(s, width - d);
    }
    let t = dec_string(n);
    s.append(t.as_str());
    proof {
        assert(s@ =~= old(s)@ + zero_pad(dec_str(n as nat), width as int));
    }
}

/// The counter text: the one-based position of the cursor, right-aligned to
/// the width of the total, then the total.
pub open spec fn spec_format_count(selected: nat, total: nat) -> Seq<char> {
    " "@ + pad_left(dec_str(selected), spec_digits(total) as int) + " / "@ + dec_str(total) + " "@
}

/// The counter shown at the top right of a list, for the cursor standing on
/// the one-based position `selected` of `total` items.
pub fn format_count(selected: usize, total: usize) -> (r: String)
    ensures
        r@ == spec_format_count(selected as nat, total as nat),
{
    let w = digits(total);
    let d = digits(selected);
    proof {
        lemma_digits_le(selected as nat);
        lemma_dec_str_len(selected as nat);
    }
    let mut s = String::from_str(" ");
    if w > d {
        push_spaces(&mut s, w - d);
    }
    let sel = dec_string(selected);
    s.append(sel.as_str());
    s.append(" / ");
    let tot = dec_string(total);
    s.append(tot.as_str());
    s.append(" ");
    proof {
        assert(s@ =~= spec_format_count(selected as nat, total as nat));
    }
    s
}

/// The counter text of a list: empty for an empty list, else the one-based
/// cursor position over the total.
pub open spec fn spec_format_list_count(total: nat, selected: nat) -> Seq<char> {
    if total == 0 {
        Seq::empty()
    } else {
        spec_format_count(selected + 1, total)
    }
}

/// The counter of a list whose cursor stands on the zero-based index
/// `current_selected`.
pub fn format_list_count(total_count: usize, current_selected: usize) -> (r: String)
    requires
        total_count == 0 || current_selected < total_count,
    ensures
        r@ == spec_format_list_count(total_count as nat, current_selected as nat),
{
    if total_count == 0 {
        String::new()
    } else {
        format_count(current_selected + 1, total_count)
    }
}

/// A bucket row: the name, left-aligned between single spaces inside the
/// borders.
pub open spec fn spec_format_bucket_item(name: Seq<char>, width: int) -> Seq<char> {
    " "@ + pad_right(name, width - 4) + " "@
}

/// The row text of one bucket in a list `width` columns wide.
pub fn format_bucket_item(name: &String, width: u16) -> (r: String)
    requires
        width >= 4,
    ensures
        r@ == spec_format_bucket_item(name@, width as int),
{
    let name_w = (width as usize) - 4;
    let mut s = String::from_str(" ");
    s.append(name.as_str());
    let n = name.as_str().unicode_len();
    if name_w > n {
        push_spaces(&mut s, name_w - n);
    }
    s.append(" ");
    proof {
        reveal_strlit(" ");
        assert(s@ =~= spec_format_bucket_item(name@, width as int));
    }
    s
}

/// A directory row: the name with a trailing slash, left-aligned.
pub open spec fn spec_format_dir_item(name: Seq<char>, width: int) -> Seq<char> {
    " "@ + pad_right(name + "/"@, width - 4) + " "@
}

/// The row text of one directory in a list `width` columns wide.
pub fn format_dir_item(name: &String, width: u16) -> (r: String)
    requires
        width >= 4,
    ensures
        r@ == spec_format_dir_item(name@, width as int),
{
    let name_w = (width as usize) - 4;
    let mut s = String::from_str(" ");
    s.append(name.as_str());
    s.append("/");
    let n = name.as_str().unicode_len();
    proof {
        reveal_strlit("/");
        reveal_strlit(" ");
    }
    if name_w >= 1 && name_w - 1 > n {
        push_spaces(&mut s, name_w - 1 - n);
    }
    s.append(" ");
    proof {
        assert(s@ =~= spec_format_dir_item(name@, width as int));
    }
    s
}

/// The timestamp text: year, month, day, hour, minute and second, each
/// zero-padded to its calendar width.
pub open spec fn spec_format_datetime(d: DateTimeValue) -> Seq<char> {
    zero_pad(dec_str(d.year as nat), 4) + "-"@ + zero_pad(dec_str(d.month as nat), 2) + "-"@
        + zero_pad(dec_str(d.day as nat), 2) + " "@ + zero_pad(dec_str(d.hour as nat), 2) + ":"@
        + zero_pad(dec_str(d.minute as nat), 2) + ":"@ + zero_pad(dec_str(d.second as nat), 2)
}

/// The timestamp of a listing row or a detail field.
pub fn format_datetime(datetime: &DateTimeValue) -> (r: String)
    ensures
        r@ == spec_format_datetime(*datetime),
{
    let mut s = String::new();
    push_zero_padded(&mut s, datetime.year as usize, 4);
    s.append("-");
    push_zero_padded(&mut s, datetime.month as usize, 2);
    s.append("-");
    push_zero_padded(&mut s, datetime.day as usize, 2);
    s.append(" ");
    push_zero_padded(&mut s, datetime.hour as usize, 2);
    s.append(":");
    push_zero_padded(&mut s, datetime.minute as usize, 2);
    s.append(":");
    push_zero_padded(&mut s, datetime.second as usize, 2);
    proof {
        reveal_strlit("-");
        reveal_strlit(" ");
        reveal_strlit(":");
        assert(s@ =~= spec_format_datetime(*datetime));
    }
    s
}

/// The human-readable size label of `size` bytes, in binary units. What the
/// outside formatter prints takes pages to state, so the result is only
/// named: the same size always has the same label.
pub uninterp spec fn size_label_of(size: int) -> Seq<char>;

/// Relies on humansize::format_size_i with the BINARY options: the label
/// depends on the numeric value alone.
#[verifier::external_body]
fn format_size_byte(size_byte: i64) -> (r: String)
    ensures
        r@ == size_label_of(size_byte as int),
{
    humansize::format_size_i(size_byte, humansize::BINARY)
}

/// A file row with details: the name left-aligned, the timestamp, and the
/// size label right-aligned to ten columns, joined by four-space gaps.
pub open spec fn spec_format_file_item_detailed(
    name: Seq<char>,
    size_byte: int,
    d: DateTimeValue,
    width: int,
) -> Seq<char> {
    " "@ + pad_right(name, width - 43) + "    "@ + spec_format_datetime(d) + "    "@ + pad_left(
        size_label_of(size_byte),
        10,
    ) + " "@
}

/// A file row without details: the name alone, left-aligned.
pub open spec fn spec_format_file_item_plain(name: Seq<char>, width: int) -> Seq<char> {
    " "@ + pad_right(name, width - 6) + " "@
}

/// The row text of one file in a list `width` columns wide: with timestamp
/// and size label on the wide object list, with the name alone beside the
/// detail pane.
pub fn format_file_item(
    name: &String,
    size_byte: i64,
    last_modified: &DateTimeValue,
    width: u16,
    show_file_detail: bool,
) -> (r: String)
    requires
        show_file_detail ==> width >= 43,
        !show_file_detail ==> width >= 6,
        datetime_wf(*last_modified),
    ensures
        show_file_detail ==> r@ == spec_format_file_item_detailed(
            name@,
            size_byte as int,
            *last_modified,
            width as int,
        ),
        !show_file_detail ==> r@ == spec_format_file_item_plain(name@, width as int),
{
    if show_file_detail {
        let name_w = (width as usize) - 43;
        let mut s = String::from_str(" ");
        s.append(name.as_str());
        let n = name.as_str().unicode_len();
        if name_w > n {
            push_spaces(&mut s, name_w - n);
        }
        s.append("    ");
        let date = format_datetime(last_modified);
        s.append(date.as_str());
        s.append("    ");
        let label = format_size_byte(size_byte);
        let l = label.as_str().unicode_len();
        if 10 > l {
            push_spaces(&mut s, 10 - l);
        }
        s.append(label.as_str());
        s.append(" ");
        proof {
            reveal_strlit(" ");
            reveal_strlit("    ");
            assert(s@ =~= spec_format_file_item_detailed(
                name@,
                size_byte as int,
                *last_modified,
                width as int,
            ));
        }
        s
    } else {
        let name_w = (width as usize) - 6;
        let mut s = String::from_str(" ");
        s.append(name.as_str());
        let n = name.as_str().unicode_len();
        if name_w > n {
            push_spaces(&mut s, name_w - n);
        }
        s.append(" ");
        proof {
            reveal_strlit(" ");
            assert(s@ =~= spec_format_file_item_plain(name@, width as int));
        }
        s
    }
}

} // verus!
