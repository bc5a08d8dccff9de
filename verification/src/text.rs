//! Small text helpers: decimal rendering, trimming and preview truncation.
use vstd::prelude::*;

verus! {

/// The Unicode `White_Space` property (PropList.txt), by which
/// `char::is_whitespace` and `str::trim` decide what is white space.
pub open spec fn is_white_space(c: char) -> bool {
    let n = c as int;
    ||| 0x9 <= n <= 0xD
    ||| n == 0x20
    ||| n == 0x85
    ||| n == 0xA0
    ||| n == 0x1680
    ||| 0x2000 <= n <= 0x200A
    ||| n == 0x2028
    ||| n == 0x2029
    ||| n == 0x202F
    ||| n == 0x205F
    ||| n == 0x3000
}

/// Drops leading white space.
pub open spec fn trim_start_chars(s: Seq<char>) -> Seq<char>
    decreases s.len(),
{
    if s.len() > 0 && is_white_space(s[0]) {
        trim_start_chars(s.drop_first())
    } else {
        s
    }
}

/// Drops trailing white space.
pub open spec fn trim_end_chars(s: Seq<char>) -> Seq<char>
    decreases s.len(),
{
    if s.len() > 0 && is_white_space(s.last()) {
        trim_end_chars(s.drop_last())
    } else {
        s
    }
}

/// A text without its leading and trailing white space.
pub open spec fn trimmed(s: Seq<char>) -> Seq<char> {
    trim_end_chars(trim_start_chars(s))
}

/// `str::trim`: the text without leading and trailing Unicode white space.
/// Claimed: the result is what `trimmed` describes, white space being the
/// Unicode `White_Space` property that the documentation names.
#[verifier::external_body]
pub fn trim(s: &str) -> (r: &str)
    ensures
        r@ == trimmed(s@),
        r@.len() > 0 ==> !is_white_space(r@[0]) && !is_white_space(r@.last()),
{
    s.trim()
}

/// The text of one decimal digit.
pub open spec fn digit_text(d: nat) -> Seq<char> {
    if d == 0 {
        "0"@
    } else if d == 1 {
        "1"@
    } else if d == 2 {
        "2"@
    } else if d == 3 {
        "3"@
    } else if d == 4 {
        "4"@
    } else if d == 5 {
        "5"@
    } else if d == 6 {
        "6"@
    } else if d == 7 {
        "7"@
    } else if d == 8 {
        "8"@
    } else {
        "9"@
    }
}

/// The decimal numeral of `n`, as `Display` writes an unsigned integer.
pub open spec fn decimal_text(n: nat) -> Seq<char>
    decreases n,
{
    if n < 10 {
        digit_text(n)
    } else {
        decimal_text(n / 10) + digit_text(n % 10)
    }
}

fn append_digit(out: &mut String, d: u64)
    requires
        d < 10,
    ensures
        final(out)@ == old(out)@ + digit_text(d as nat),
{
    if d == 0 {
        out.append("0");
    } else if d == 1 {
        out.append("1");
    } else if d == 2 {
        out.append("2");
    } else if d == 3 {
        out.append("3");
    } else if d == 4 {
        out.append("4");
    } else if d == 5 {
        out.append("5");
    } else if d == 6 {
        out.append("6");
    } else if d == 7 {
        out.append("7");
    } else if d == 8 {
        out.append("8");
    } else {
        out.append("9");
    }
}

/// Appends the decimal numeral of `n`.
pub fn append_decimal(out: &mut String, n: u64)
    ensures
        final(out)@ == old(out)@ + decimal_text(n as nat),
    decreases n,
{
    if n < 10 {
        append_digit(out, n);
    } else {
        append_decimal(out, n / 10);
        append_digit(out, n % 10);
        assert(old(out)@ + decimal_text((n / 10) as nat) + digit_text((n % 10) as nat)
            =~= old(out)@ + decimal_text(n as nat));
    }
}

/// The decimal numeral of `n`.
pub fn decimal(n: u64) -> (r: String)
    ensures
        r@ == decimal_text(n as nat),
{
    let mut s = String::new();
    append_decimal(&mut s, n);
    assert(s@ =~= decimal_text(n as nat));
    s
}

/// What `truncate_preview` makes of a text: the trimmed text when it has at
/// most `max` characters, else its first `max - 1` characters followed by an
/// ellipsis (no character at all when `max` is zero).
pub open spec fn preview_text(text: Seq<char>, max: nat) -> Seq<char> {
    let t = trimmed(text);
    if t.len() <= max {
        t
    } else {
        t.take(if max == 0 { 0 } else { max - 1 }) + "…"@
    }
}

/// Trims a text and shortens it to a preview with an ellipsis.
pub fn truncate_preview(text: &str, max: usize) -> (r: String)
    ensures
        r@ == preview_text(text@, max as nat),
{
    let t = trim(text);
    let count = t.unicode_len();
    if count <= max {
        String::from_str(t)
    } else {
        let keep: usize = if max == 0 { 0 } else { max - 1 };
        let head = t.substring_char(0, keep);
        let mut out = String::from_str(head);
        out.append("…");
        assert(t@.subrange(0, keep as int) =~= t@.take(keep as int));
        out
    }
}

} // verus!
