//! Text helpers for the table: the first line of a message, padding to a
//! column width, and decimal numbers.

use vstd::prelude::*;
use vstd::string::*;

verus! {

/// Index of the first line feed in `s`, or `s.len()` when there is none.
pub open spec fn first_break(s: Seq<char>) -> nat
    decreases s.len(),
{
    if s.len() == 0 {
        0
    } else if s[0] == '\n' {
        0
    } else {
        1 + first_break(s.drop_first())
    }
}

/// The first line of `s`, as `str::lines` yields it: the text before the first
/// line feed, without a carriage return that ends it. A text with no line feed
/// is its own first line.
pub open spec fn first_line(s: Seq<char>) -> Seq<char> {
    let k = first_break(s);
    if k < s.len() && k > 0 && s[k - 1] == '\r' {
        s.subrange(0, k - 1)
    } else {
        s.subrange(0, k as int)
    }
}

/// Before `first_break(s)` no character is a line feed, and the character
/// at `first_break(s)`, when there is one, is.
pub proof fn lemma_first_break(s: Seq<char>)
    ensures
        first_break(s) <= s.len(),
        forall|i: int| 0 <= i < first_break(s) ==> s[i] != '\n',
        first_break(s) < s.len() ==> s[first_break(s) as int] == '\n',
    decreases s.len(),
{
    if s.len() > 0 && s[0] != '\n' {
        lemma_first_break(s.drop_first());
        assert forall|i: int| 0 <= i < first_break(s) implies s[i] != '\n' by {
            if i > 0 {
                assert(s[i] == s.drop_first()[i - 1]);
            }
        }
    }
}

/// The first line is a prefix of the text with no line feed in it; it stops
/// at the first line feed, or at a carriage return just before it; and a
/// text with no line feed is its own first line.
pub proof fn lemma_first_line(s: Seq<char>)
    ensures
        first_line(s) == s.subrange(0, first_line(s).len() as int),
        forall|i: int| 0 <= i < first_line(s).len() ==> #[trigger] first_line(s)[i] != '\n',
        first_line(s).len() < s.len() ==> (s[first_line(s).len() as int] == '\n' || (s[first_line(
            s,
        ).len() as int] == '\r' && s[first_line(s).len() + 1int] == '\n')),
        (forall|i: int| 0 <= i < s.len() ==> #[trigger] s[i] != '\n') ==> first_line(s) == s,
{
    lemma_first_break(s);
    let k = first_break(s);
    let f = first_line(s);
    assert(f == s.subrange(0, f.len() as int));
    if forall|i: int| 0 <= i < s.len() ==> #[trigger] s[i] != '\n' {
        if k < s.len() {
            assert(s[k as int] != '\n');
        }
        assert(s.subrange(0, s.len() as int) =~= s);
    }
}

/// The first line of `message`, with the rest of the message left out.
pub fn first_line_of(message: &str) -> (r: String)
    ensures
        r@ == first_line(message@),
{
    proof {
        lemma_first_break(message@);
    }
    let n = message.unicode_len();
    let mut k: usize = 0;
    while k < n && message.get_char(k) != '\n'
        invariant
            n == message@.len(),
            k <= n,
            forall|i: int| 0 <= i < k ==> message@[i] != '\n',
        decreases n - k,
    {
        k = k + 1;
    }
    proof {
        assert(k == first_break(message@)) by {
            if k < first_break(message@) {
                assert(message@[k as int] != '\n');
            }
            if k > first_break(message@) {
                assert(message@[first_break(message@) as int] == '\n');
            }
        }
    }
    let mut end = k;
    if k < n && k > 0 && message.get_char(k - 1) == '\r' {
        end = k - 1;
    }
    String::from_str(message.substring_char(0, end))
}

/// `n` copies of the character `c`.
pub open spec fn repeat(c: char, n: nat) -> Seq<char> {
    Seq::new(n, |i: int| c)
}

/// `s` left-aligned in a column of `width` characters: spaces fill the rest
/// of the column, and a longer text is kept whole.
pub open spec fn pad_right(s: Seq<char>, width: nat) -> Seq<char> {
    if s.len() >= width {
        s
    } else {
        s + repeat(' ', (width - s.len()) as nat)
    }
}

/// `s` followed by `n` copies of `c`.
fn push_repeat(s: &mut String, c: char, n: usize)
    requires
        c == ' ' || c == '-',
    ensures
        final(s)@ == old(s)@ + repeat(c, n as nat),
{
    let piece: &str = if c == ' ' {
        " "
    } else {
        "-"
    };
    proof {
        reveal_strlit(" ");
        reveal_strlit("-");
        assert(piece@ =~= seq![c]);
    }
    let ghost start = s@;
    let mut i: usize = 0;
    while i < n
        invariant
            i <= n,
            piece@ == seq![c],
            s@ =~= start + repeat(c, i as nat),
        decreases n - i,
    {
        s.append(piece);
        i = i + 1;
        assert(s@ =~= start + repeat(c, i as nat));
    }
}

/// `n` copies of `c`, for `c` a space or a dash.
pub fn repeat_char(c: char, n: usize) -> (r: String)
    requires
        c == ' ' || c == '-',
    ensures
        r@ == repeat(c, n as nat),
{
    let mut r = String::new();
    push_repeat(&mut r, c, n);
    assert(r@ =~= repeat(c, n as nat));
    r
}

/// `s` left-aligned in a column of `width` characters.
pub fn pad_right_of(s: &str, width: usize) -> (r: String)
    ensures
        r@ == pad_right(s@, width as nat),
{
    let len = s.unicode_len();
    let mut r = String::from_str(s);
    if len < width {
        push_repeat(&mut r, ' ', width - len);
    }
    r
}

/// The decimal digit for `d`, which is below ten.
pub open spec fn digit(d: nat) -> char {
    if d == 0 {
        '0'
    } else if d == 1 {
        '1'
    } else if d == 2 {
        '2'
    } else if d == 3 {
        '3'
    } else if d == 4 {
        '4'
    } else if d == 5 {
        '5'
    } else if d == 6 {
        '6'
    } else if d == 7 {
        '7'
    } else if d == 8 {
        '8'
    } else {
        '9'
    }
}

/// `n` written in decimal, with no sign and no leading zeros.
pub open spec fn decimal(n: nat) -> Seq<char>
    decreases n,
{
    if n < 10 {
        seq![digit(n)]
    } else {
        decimal(n / 10) + seq![digit(n % 10)]
    }
}

fn digit_str(d: u32) -> (r: &'static str)
    requires
        d < 10,
    ensures
        r@ == seq![digit(d as nat)],
{
    proof {
        reveal_strlit("0");
        reveal_strlit("1");
        reveal_strlit("2");
        reveal_strlit("3");
        reveal_strlit("4");
        reveal_strlit("5");
        reveal_strlit("6");
        reveal_strlit("7");
        reveal_strlit("8");
        reveal_strlit("9");
    }
    let r = if d == 0 {
        "0"
    } else if d == 1 {
        "1"
    } else if d == 2 {
        "2"
    } else if d == 3 {
        "3"
    } else if d == 4 {
        "4"
    } else if d == 5 {
        "5"
    } else if d == 6 {
        "6"
    } else if d == 7 {
        "7"
    } else if d == 8 {
        "8"
    } else {
        "9"
    };
    assert(r@ =~= seq![digit(d as nat)]);
    r
}

/// `n` written in decimal.
pub fn decimal_of(n: u32) -> (r: String)
    ensures
        r@ == decimal(n as nat),
    decreases n,
{
    if n < 10 {
        String::from_str(digit_str(n))
    } else {
        let mut r = decimal_of(n / 10);
        r.append(digit_str(n % 10));
        r
    }
}

} // verus!
