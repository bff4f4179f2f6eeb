//! Verified building blocks for plain text: decimal rendering of integers,
//! fixed-width zero padding, repeated characters, and simple character
//! predicates used by the renderer's contracts.

use vstd::prelude::*;

verus! {

/// The decimal digit character for a value below ten.
pub open spec fn digit_char(d: nat) -> char {
    if d == 0 {
        '0'
    } else if d == 1 {
        '1'
    } else if d == 2 {
        '2'
    } else if d == 3 {
        '3'
    } else if d == 4 {
        '4'
    } else if d == 5 {
        '5'
    } else if d == 6 {
        '6'
    } else if d == 7 {
        '7'
    } else if d == 8 {
        '8'
    } else {
        '9'
    }
}

/// The usual decimal representation of `n`, most significant digit first,
/// with no leading zeroes (a single `'0'` for zero).
pub open spec fn dec_rep(n: nat) -> Seq<char>
    decreases n,
{
    if n < 10 {
        seq![digit_char(n)]
    } else {
        dec_rep(n / 10).push(digit_char(n % 10))
    }
}

pub open spec fn is_digit(c: char) -> bool {
    c == '0' || c == '1' || c == '2' || c == '3' || c == '4' || c == '5' || c == '6' || c == '7'
        || c == '8' || c == '9'
}

/// Every character of a decimal representation is a digit.
pub proof fn lemma_dec_rep_digits(n: nat)
    ensures
        dec_rep(n).len() >= 1,
        forall|i: int| 0 <= i < dec_rep(n).len() ==> is_digit(#[trigger] dec_rep(n)[i]),
    decreases n,
{
    if n >= 10 {
        lemma_dec_rep_digits(n / 10);
    }
}

fn digit_str(d: u64) -> (r: &'static str)
    requires
        d < 10,
    ensures
        r@ =~= seq![digit_char(d as nat)],
{
    proof {
        reveal_strlit("0");
        reveal_strlit("1");
        reveal_strlit("2");
        reveal_strlit("3");
        reveal_strlit("4");
        reveal_strlit("5");
        reveal_strlit("6");
        reveal_strlit("7");
        reveal_strlit("8");
        reveal_strlit("9");
    }
    if d == 0 {
        "0"
    } else if d == 1 {
        "1"
    } else if d == 2 {
        "2"
    } else if d == 3 {
        "3"
    } else if d == 4 {
        "4"
    } else if d == 5 {
        "5"
    } else if d == 6 {
        "6"
    } else if d == 7 {
        "7"
    } else if d == 8 {
        "8"
    } else {
        "9"
    }
}

/// Appends the decimal representation of `n` to `out`.
pub fn push_decimal(out: &mut String, n: u64)
    ensures
        final(out)@ == old(out)@ + dec_rep(n as nat),
    decreases n,
{
    if n < 10 {
        out.append(digit_str(n));
    } else {
        push_decimal(out, n / 10);
        out.append(digit_str(n % 10));
        proof {
            assert(final(out)@ =~= old(out)@ + dec_rep(n as nat));
        }
    }
}

/// The decimal representation of `n` as a fresh string.
pub fn decimal_string(n: u64) -> (r: String)
    ensures
        r@ == dec_rep(n as nat),
{
    let mut s = String::new();
    push_decimal(&mut s, n);
    proof {
        assert(s@ =~= dec_rep(n as nat));
    }
    s
}

/// `n` rendered as exactly two decimal digits, zero padded (for `n < 100`).
pub open spec fn two_digits(n: nat) -> Seq<char> {
    seq![digit_char(n / 10), digit_char(n % 10)]
}

/// `n` rendered as exactly four decimal digits, zero padded (for `n < 10000`).
pub open spec fn four_digits(n: nat) -> Seq<char> {
    seq![
        digit_char(n / 1000),
        digit_char((n / 100) % 10),
        digit_char((n / 10) % 10),
        digit_char(n % 10),
    ]
}

/// Appends `n` as two zero-padded decimal digits.
pub fn push_two_digits(out: &mut String, n: u64)
    requires
        n < 100,
    ensures
        final(out)@ == old(out)@ + two_digits(n as nat),
{
    out.append(digit_str(n / 10));
    out.append(digit_str(n % 10));
    proof {
        assert(final(out)@ =~= old(out)@ + two_digits(n as nat));
    }
}

/// Appends `n` as four zero-padded decimal digits.
pub fn push_four_digits(out: &mut String, n: u64)
    requires
        n < 10000,
    ensures
        final(out)@ == old(out)@ + four_digits(n as nat),
{
    out.append(digit_str(n / 1000));
    out.append(digit_str((n / 100) % 10));
    out.append(digit_str((n / 10) % 10));
    out.append(digit_str(n % 10));
    proof {
        assert(final(out)@ =~= old(out)@ + four_digits(n as nat));
    }
}

/// The character `c` repeated `n` times.
pub open spec fn repeated(c: char, n: nat) -> Seq<char> {
    Seq::new(n, |i: int| c)
}

/// A string made of the single character of `piece`, `count` times over.
pub fn repeat_piece(piece: &str, count: usize) -> (r: String)
    requires
        piece@.len() == 1,
    ensures
        r@ == repeated(piece@[0], count as nat),
{
    let mut out = String::new();
    let mut i: usize = 0;
    while i < count
        invariant
            i <= count,
            piece@.len() == 1,
            out@ == repeated(piece@[0], i as nat),
        decreases count - i,
    {
        out.append(piece);
        i = i + 1;
        proof {
            assert(out@ =~= repeated(piece@[0], i as nat));
        }
    }
    out
}

/// `s` padded with spaces on the right up to width `w`; a longer `s` is kept
/// whole.
pub open spec fn pad_right(s: Seq<char>, w: nat) -> Seq<char> {
    if s.len() >= w {
        s
    } else {
        s + repeated(' ', (w - s.len()) as nat)
    }
}

/// `s` left aligned in a field of `w` spaces.
pub fn pad_right_string(s: &str, w: usize) -> (r: String)
    ensures
        r@ == pad_right(s@, w as nat),
{
    proof {
        reveal_strlit(" ");
    }
    let mut out = s.to_owned();
    let mut len = s.unicode_len();
    proof {
        assert(out@ =~= s@ + repeated(' ', 0nat));
    }
    while len < w
        invariant
            s@.len() <= len,
            len <= w || len == s@.len(),
            out@ == s@ + repeated(' ', (len - s@.len()) as nat),
        decreases w - len,
    {
        out.append(" ");
        len = len + 1;
        proof {
            reveal_strlit(" ");
            assert(out@ =~= s@ + repeated(' ', (len - s@.len()) as nat));
        }
    }
    proof {
        if s@.len() >= w as nat {
            assert(out@ =~= s@);
        }
    }
    out
}

/// The escape character that starts every ANSI styling sequence.
pub open spec fn esc_char() -> char {
    '\u{1b}'
}

/// Holds when `s` contains no escape character, so that a stream built from
/// such pieces carries no styling sequence.
pub open spec fn no_escape(s: Seq<char>) -> bool {
    forall|i: int| 0 <= i < s.len() ==> s[i] != esc_char()
}

/// How many times the character `c` occurs in `s`.
pub open spec fn count_occ(s: Seq<char>, c: char) -> nat
    decreases s.len(),
{
    if s.len() == 0 {
        0
    } else {
        count_occ(s.drop_last(), c) + if s.last() == c {
            1nat
        } else {
            0nat
        }
    }
}

/// Occurrence counts add up over concatenation.
pub proof fn lemma_count_occ_concat(a: Seq<char>, b: Seq<char>, c: char)
    ensures
        count_occ(a + b, c) == count_occ(a, c) + count_occ(b, c),
    decreases b.len(),
{
    if b.len() == 0 {
        assert(a + b =~= a);
    } else {
        assert((a + b).drop_last() =~= a + b.drop_last());
        assert((a + b).last() == b.last());
        lemma_count_occ_concat(a, b.drop_last(), c);
    }
}

/// Appending one character adds one occurrence of itself and none of any
/// other character.
pub proof fn lemma_count_occ_push(s: Seq<char>, c: char, d: char)
    ensures
        count_occ(s.push(c), d) == count_occ(s, d) + if c == d {
            1nat
        } else {
            0nat
        },
{
    assert(s.push(c).drop_last() =~= s);
    assert(s.push(c).last() == c);
}

/// The occurrence count in a one-character sequence.
pub proof fn lemma_count_occ_single(c: char, d: char)
    ensures
        count_occ(seq![c], d) == if c == d {
            1nat
        } else {
            0nat
        },
{
    assert(seq![c].drop_last() =~= Seq::<char>::empty());
    assert(count_occ(Seq::<char>::empty(), d) == 0);
    assert(seq![c].last() == c);
}

/// A sequence none of whose characters is `c` contains no occurrence of `c`.
pub proof fn lemma_count_occ_none(s: Seq<char>, c: char)
    requires
        forall|i: int| 0 <= i < s.len() ==> s[i] != c,
    ensures
        count_occ(s, c) == 0,
    decreases s.len(),
{
    if s.len() > 0 {
        lemma_count_occ_none(s.drop_last(), c);
    }
}

/// Escape-freeness survives concatenation.
pub proof fn lemma_no_escape_concat(a: Seq<char>, b: Seq<char>)
    requires
        no_escape(a),
        no_escape(b),
    ensures
        no_escape(a + b),
{
    assert forall|i: int| 0 <= i < (a + b).len() implies (a + b)[i] != esc_char() by {
        if i < a.len() {
            assert((a + b)[i] == a[i]);
        } else {
            assert((a + b)[i] == b[i - a.len()]);
        }
    }
}

/// A decimal representation is all digits, so it holds no escape character.
pub proof fn lemma_dec_rep_no_escape(n: nat)
    ensures
        no_escape(dec_rep(n)),
{
    lemma_dec_rep_digits(n);
    assert forall|i: int| 0 <= i < dec_rep(n).len() implies dec_rep(n)[i] != esc_char() by {
        assert(is_digit(dec_rep(n)[i]));
    }
}

/// `needle` occurs in `hay` starting at position `at`.
pub open spec fn occurs_at(hay: Seq<char>, needle: Seq<char>, at: int) -> bool {
    &&& 0 <= at
    &&& at + needle.len() <= hay.len()
    &&& hay.subrange(at, at + needle.len()) == needle
}

/// `needle` occurs somewhere in `hay`.
pub open spec fn occurs_in(hay: Seq<char>, needle: Seq<char>) -> bool {
    exists|at: int| occurs_at(hay, needle, at)
}

/// Holds when `c` is a lower-case ASCII letter.
pub open spec fn is_lower_ascii(c: char) -> bool {
    97 <= c as u32 <= 122
}

/// Upper-cases a lower-case ASCII letter and leaves every other character
/// unchanged.
pub open spec fn upper_char(c: char) -> char {
    if is_lower_ascii(c) {
        ((c as u32) - 32) as char
    } else {
        c
    }
}

/// `s` with each lower-case ASCII letter upper-cased.
pub open spec fn upper_seq(s: Seq<char>) -> Seq<char> {
    Seq::new(s.len(), |i: int| upper_char(s[i]))
}

fn lower_to_upper_str(c: char) -> (r: &'static str)
    requires
        is_lower_ascii(c),
    ensures
        r@ =~= seq![upper_char(c)],
{
    proof {
        reveal_strlit("A");
        reveal_strlit("B");
        reveal_strlit("C");
        reveal_strlit("D");
        reveal_strlit("E");
        reveal_strlit("F");
        reveal_strlit("G");
        reveal_strlit("H");
        reveal_strlit("I");
        reveal_strlit("J");
        reveal_strlit("K");
        reveal_strlit("L");
        reveal_strlit("M");
        reveal_strlit("N");
        reveal_strlit("O");
        reveal_strlit("P");
        reveal_strlit("Q");
        reveal_strlit("R");
        reveal_strlit("S");
        reveal_strlit("T");
        reveal_strlit("U");
        reveal_strlit("V");
        reveal_strlit("W");
        reveal_strlit("X");
        reveal_strlit("Y");
        reveal_strlit("Z");
    }
    if c == 'a' {
        "A"
    } else if c == 'b' {
        "B"
    } else if c == 'c' {
        "C"
    } else if c == 'd' {
        "D"
    } else if c == 'e' {
        "E"
    } else if c == 'f' {
        "F"
    } else if c == 'g' {
        "G"
    } else if c == 'h' {
        "H"
    } else if c == 'i' {
        "I"
    } else if c == 'j' {
        "J"
    } else if c == 'k' {
        "K"
    } else if c == 'l' {
        "L"
    } else if c == 'm' {
        "M"
    } else if c == 'n' {
        "N"
    } else if c == 'o' {
        "O"
    } else if c == 'p' {
        "P"
    } else if c == 'q' {
        "Q"
    } else if c == 'r' {
        "R"
    } else if c == 's' {
        "S"
    } else if c == 't' {
        "T"
    } else if c == 'u' {
        "U"
    } else if c == 'v' {
        "V"
    } else if c == 'w' {
        "W"
    } else if c == 'x' {
        "X"
    } else if c == 'y' {
        "Y"
    } else {
        "Z"
    }
}

/// `s` upper-cased letter by letter (ASCII letters only; anything else is
/// kept as it is).
pub fn to_upper_ascii(s: &str) -> (r: String)
    ensures
        r@ == upper_seq(s@),
{
    let n = s.unicode_len();
    let mut out = String::new();
    let mut i: usize = 0;
    while i < n
        invariant
            i <= n,
            n == s@.len(),
            out@ == upper_seq(s@.take(i as int)),
        decreases n - i,
    {
        let c = s.get_char(i);
        if 97 <= c as u32 && c as u32 <= 122 {
            out.append(lower_to_upper_str(c));
        } else {
            out.append(s.substring_char(i, i + 1));
        }
        i = i + 1;
        proof {
            assert(out@ =~= upper_seq(s@.take(i as int)));
        }
    }
    proof {
        assert(s@.take(n as int) =~= s@);
    }
    out
}

/// Upper-casing keeps a sequence free of escape characters.
pub proof fn lemma_upper_no_escape(s: Seq<char>)
    requires
        no_escape(s),
    ensures
        no_escape(upper_seq(s)),
{
    assert forall|i: int| 0 <= i < upper_seq(s).len() implies upper_seq(s)[i] != esc_char() by {
        assert(s[i] != esc_char());
    }
}

} // verus!
