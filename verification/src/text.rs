//! Character-level helpers shared by the header and record grammars.

use vstd::prelude::*;
use vstd::utf8::*;

verus! {

/// The classes of characters that the inventory grammars scan for.
#[derive(Clone, Copy, PartialEq, Eq, Structural, Debug)]
pub enum CharClass {
    /// An ASCII letter, an ASCII digit or `_`.
    Word,
    /// Anything but a word character and `\n`.
    NonWord,
    /// Anything but a space, a tab and `\n`.
    NonSpace,
    /// Anything but a space and a tab.
    NotBlank,
    /// Anything but `\r` and `\n`.
    NotLineEnd,
    /// An ASCII decimal digit.
    Digit,
    /// Anything but an ASCII decimal digit.
    NotDigit,
    /// A space or a tab.
    Blank,
    /// A Unicode white space character.
    Whitespace,
}

/// An ASCII letter or an ASCII digit.
pub open spec fn is_ascii_alphanumeric(c: char) -> bool {
    ('a' <= c && c <= 'z') || ('A' <= c && c <= 'Z') || ('0' <= c && c <= '9')
}

/// A space or a tab.
pub open spec fn is_blank(c: char) -> bool {
    c == ' ' || c == '\t'
}

/// The characters that Rust's `char::is_whitespace` accepts (the Unicode `White_Space` set).
pub open spec fn is_whitespace(c: char) -> bool {
    ||| ('\u{9}' <= c && c <= '\u{d}')
    ||| c == ' '
    ||| c == '\u{85}'
    ||| c == '\u{a0}'
    ||| c == '\u{1680}'
    ||| ('\u{2000}' <= c && c <= '\u{200a}')
    ||| c == '\u{2028}'
    ||| c == '\u{2029}'
    ||| c == '\u{202f}'
    ||| c == '\u{205f}'
    ||| c == '\u{3000}'
}

/// Whether `c` belongs to the class `k`.
pub open spec fn in_class(c: char, k: CharClass) -> bool {
    match k {
        CharClass::Word => is_ascii_alphanumeric(c) || c == '_',
        CharClass::NonWord => !(is_ascii_alphanumeric(c) || c == '_') && c != '\n',
        CharClass::NonSpace => !is_blank(c) && c != '\n',
        CharClass::NotBlank => !is_blank(c),
        CharClass::NotLineEnd => c != '\r' && c != '\n',
        CharClass::Digit => '0' <= c && c <= '9',
        CharClass::NotDigit => !('0' <= c && c <= '9'),
        CharClass::Blank => is_blank(c),
        CharClass::Whitespace => is_whitespace(c),
    }
}

/// Executable membership test for a character class.
pub fn char_in_class(c: char, k: CharClass) -> (b: bool)
    ensures
        b == in_class(c, k),
{
    let alnum = ('a' <= c && c <= 'z') || ('A' <= c && c <= 'Z') || ('0' <= c && c <= '9');
    let blank = c == ' ' || c == '\t';
    match k {
        CharClass::Word => alnum || c == '_',
        CharClass::NonWord => !(alnum || c == '_') && c != '\n',
        CharClass::NonSpace => !blank && c != '\n',
        CharClass::NotBlank => !blank,
        CharClass::NotLineEnd => c != '\r' && c != '\n',
        CharClass::Digit => '0' <= c && c <= '9',
        CharClass::NotDigit => !('0' <= c && c <= '9'),
        CharClass::Blank => blank,
        CharClass::Whitespace => {
            ('\u{9}' <= c && c <= '\u{d}') || c == ' ' || c == '\u{85}' || c == '\u{a0}' || c
                == '\u{1680}' || ('\u{2000}' <= c && c <= '\u{200a}') || c == '\u{2028}' || c
                == '\u{2029}' || c == '\u{202f}' || c == '\u{205f}' || c == '\u{3000}'
        },
    }
}

/// The end of the longest run of characters of class `k` that starts at `i`
/// (`i` itself when the run is empty or `i` is past the end).
pub open spec fn run_end(s: Seq<char>, i: int, k: CharClass) -> int
    decreases s.len() - i,
{
    if 0 <= i < s.len() && in_class(s[i], k) {
        run_end(s, i + 1, k)
    } else {
        i
    }
}

/// A run ends no earlier than it starts and no later than the end of the text;
/// every character in it is of the class, and the character that stops it is not.
pub proof fn lemma_run_end(s: Seq<char>, i: int, k: CharClass)
    requires
        0 <= i <= s.len(),
    ensures
        i <= run_end(s, i, k) <= s.len(),
        forall|j: int| i <= j < run_end(s, i, k) ==> in_class(#[trigger] s[j], k),
        run_end(s, i, k) < s.len() ==> !in_class(s[run_end(s, i, k)], k),
    decreases s.len() - i,
{
    if i < s.len() && in_class(s[i], k) {
        lemma_run_end(s, i + 1, k);
    }
}

/// A run that covers `i..j` and is stopped at `j` ends at `j`.
pub proof fn lemma_run_end_region(s: Seq<char>, i: int, j: int, k: CharClass)
    requires
        0 <= i <= j <= s.len(),
        forall|m: int| i <= m < j ==> in_class(#[trigger] s[m], k),
        j == s.len() || !in_class(s[j], k),
    ensures
        run_end(s, i, k) == j,
    decreases j - i,
{
    if i < j {
        lemma_run_end_region(s, i + 1, j, k);
    }
}

/// A run that stops inside `a`, or at its end when what follows does not continue
/// it, ends at the same place in `a + b`.
pub proof fn lemma_run_end_prefix(a: Seq<char>, b: Seq<char>, i: int, k: CharClass)
    requires
        0 <= i <= a.len(),
        run_end(a, i, k) < a.len() || b.len() == 0 || !in_class(b[0], k),
    ensures
        run_end(a + b, i, k) == run_end(a, i, k),
{
    lemma_run_end(a, i, k);
    let e = run_end(a, i, k);
    assert forall|m: int| i <= m < e implies in_class(#[trigger] (a + b)[m], k) by {
        assert((a + b)[m] == a[m]);
    }
    if e < a.len() {
        assert((a + b)[e] == a[e]);
    } else if b.len() > 0 {
        assert((a + b)[e] == b[0]);
    }
    lemma_run_end_region(a + b, i, e, k);
}

/// The end of the run of class `k` that starts at `i` in `v`.
pub fn scan_run(v: &Vec<char>, i: usize, k: CharClass) -> (e: usize)
    requires
        i <= v@.len(),
    ensures
        e == run_end(v@, i as int, k),
        i <= e <= v@.len(),
{
    let mut j = i;
    while j < v.len() && char_in_class(v[j], k)
        invariant
            i <= j <= v@.len(),
            run_end(v@, i as int, k) == run_end(v@, j as int, k),
        decreases v@.len() - j,
    {
        j = j + 1;
    }
    proof {
        lemma_run_end(v@, j as int, k);
    }
    j
}

/// The characters of `s`, in order, as an indexable vector.
pub fn chars_of(s: &str) -> (v: Vec<char>)
    ensures
        v@ == s@,
{
    let mut v: Vec<char> = Vec::new();
    for c in it: s.chars()
        invariant
            v@ == it.history(),
    {
        v.push(c);
    }
    proof {
        assert(v@ =~= s@);
    }
    v
}

/// Calls `String::push`, which appends the character `c` at the end of `s`.
#[verifier::external_body]
pub(crate) fn push_char(s: &mut String, c: char)
    ensures
        final(s)@ == old(s)@.push(c),
{
    s.push(c);
}

/// The characters `v[from..to]` as a new string.
pub fn string_of(v: &Vec<char>, from: usize, to: usize) -> (s: String)
    requires
        from <= to <= v@.len(),
    ensures
        s@ == v@.subrange(from as int, to as int),
{
    let mut s = String::new();
    let mut i = from;
    while i < to
        invariant
            from <= i <= to <= v@.len(),
            s@ == v@.subrange(from as int, i as int),
        decreases to - i,
    {
        push_char(&mut s, v[i]);
        i = i + 1;
        proof {
            assert(s@ =~= v@.subrange(from as int, i as int));
        }
    }
    s
}

/// Whether `v[from..to]` spells out exactly `lit`.
pub fn chars_eq_str(v: &Vec<char>, from: usize, to: usize, lit: &str) -> (b: bool)
    requires
        from <= to <= v@.len(),
    ensures
        b == (v@.subrange(from as int, to as int) == lit@),
{
    let l = chars_of(lit);
    if to - from != l.len() {
        return false;
    }
    let mut i: usize = 0;
    while i < l.len()
        invariant
            from <= to <= v@.len(),
            to - from == l@.len(),
            l@ == lit@,
            0 <= i <= l@.len(),
            forall|j: int| 0 <= j < i ==> v@[from + j] == l@[j],
        decreases l@.len() - i,
    {
        if v[from + i] != l[i] {
            proof {
                assert(v@.subrange(from as int, to as int)[i as int] != lit@[i as int]);
            }
            return false;
        }
        i = i + 1;
    }
    proof {
        assert(v@.subrange(from as int, to as int) =~= lit@);
    }
    true
}

/// Whether `lit` occurs in `v[from..to]` starting at `from`.
pub fn starts_with_at(v: &Vec<char>, from: usize, lit: &str) -> (b: bool)
    requires
        from <= v@.len(),
    ensures
        b == (from + lit@.len() <= v@.len() && v@.subrange(
            from as int,
            from + lit@.len(),
        ) == lit@),
{
    let n = lit.unicode_len();
    if n > v.len() - from {
        return false;
    }
    chars_eq_str(v, from, from + n, lit)
}

/// Whether `lit` occurs anywhere in `s`.
pub open spec fn contains_seq(s: Seq<char>, lit: Seq<char>) -> bool {
    exists|i: int| 0 <= i && i + lit.len() <= s.len() && #[trigger] s.subrange(i, i + lit.len()) == lit
}

/// Whether `lit` occurs anywhere in `v`.
pub fn contains_str(v: &Vec<char>, lit: &str) -> (b: bool)
    ensures
        b == contains_seq(v@, lit@),
{
    let n = lit.unicode_len();
    if n > v.len() {
        return false;
    }
    let vlen = v.len();
    let limit = vlen - n;
    let mut i: usize = 0;
    loop
        invariant
            vlen == v@.len(),
            n == lit@.len(),
            n <= v@.len(),
            limit == v@.len() - n,
            0 <= i <= limit,
            forall|j: int| 0 <= j < i ==> #[trigger] v@.subrange(j, j + n) != lit@,
        ensures
            i == limit,
            forall|j: int| 0 <= j <= i ==> #[trigger] v@.subrange(j, j + n) != lit@,
        decreases limit - i,
    {
        if chars_eq_str(v, i, i + n, lit) {
            return true;
        }
        if i == limit {
            break ;
        }
        i = i + 1;
    }
    proof {
        assert forall|j: int| 0 <= j && j + lit@.len() <= v@.len() implies #[trigger] v@.subrange(
            j,
            j + lit@.len(),
        ) != lit@ by {
            assert(j <= i);
        }
    }
    false
}

// ---------------------------------------------------------------------------
// Byte offsets

/// The number of bytes that the UTF-8 encoding of the first `i` characters of `s` takes.
pub open spec fn byte_offset(s: Seq<char>, i: int) -> nat {
    encode_utf8(s.take(i)).len()
}

/// Encoding a concatenation encodes each part in turn.
pub proof fn lemma_encode_utf8_concat(a: Seq<char>, b: Seq<char>)
    ensures
        encode_utf8(a + b) == encode_utf8(a) + encode_utf8(b),
    decreases a.len(),
{
    if a.len() == 0 {
        assert(a + b =~= b);
        assert(encode_utf8(a) + encode_utf8(b) =~= encode_utf8(b));
    } else {
        assert((a + b).drop_first() =~= a.drop_first() + b);
        lemma_encode_utf8_concat(a.drop_first(), b);
        assert(encode_utf8(a + b) =~= encode_utf8(a) + encode_utf8(b));
    }
}

/// No byte of the UTF-8 encoding of a character other than `\n` is the byte 10;
/// `\n` itself is encoded as that one byte.
pub proof fn lemma_encode_scalar_newline(c: char)
    ensures
        c == '\n' ==> encode_scalar(c as u32) == seq![10u8],
        c != '\n' ==> forall|i: int|
            0 <= i < encode_scalar(c as u32).len() ==> #[trigger] encode_scalar(c as u32)[i] != 10u8,
{
    char_is_scalar(c);
    let v = c as u32;
    if c == '\n' {
        assert(((10u32 & 0x7F) as u8) == 10u8) by (bit_vector);
        assert(encode_scalar(v) =~= seq![10u8]);
    } else if has_width_1_encoding(v) {
        assert(((v & 0x7F) as u8) != 10u8) by (bit_vector)
            requires
                v <= 0x7F,
                v != 10,
        ;
    } else if has_width_2_encoding(v) {
        assert((0xC0u8 | (((v >> 6) & 0x1F) as u8)) != 10u8) by (bit_vector);
        assert((0x80u8 | ((v & 0x3F) as u8)) != 10u8) by (bit_vector);
    } else if has_width_3_encoding(v) {
        assert((0xE0u8 | (((v >> 12) & 0x0F) as u8)) != 10u8) by (bit_vector);
        assert((0x80u8 | (((v >> 6) & 0x3F) as u8)) != 10u8) by (bit_vector);
        assert((0x80u8 | ((v & 0x3F) as u8)) != 10u8) by (bit_vector);
    } else {
        assert((0xF0u8 | (((v >> 18) & 0x7) as u8)) != 10u8) by (bit_vector);
        assert((0x80u8 | (((v >> 12) & 0x3F) as u8)) != 10u8) by (bit_vector);
        assert((0x80u8 | (((v >> 6) & 0x3F) as u8)) != 10u8) by (bit_vector);
        assert((0x80u8 | ((v & 0x3F) as u8)) != 10u8) by (bit_vector);
    }
}

/// A text without `\n` is encoded without the byte 10.
pub proof fn lemma_encode_no_newline(t: Seq<char>)
    requires
        forall|i: int| 0 <= i < t.len() ==> #[trigger] t[i] != '\n',
    ensures
        forall|i: int| 0 <= i < encode_utf8(t).len() ==> #[trigger] encode_utf8(t)[i] != 10u8,
    decreases t.len(),
{
    if t.len() > 0 {
        lemma_encode_scalar_newline(t[0]);
        lemma_encode_no_newline(t.drop_first());
        let a = encode_scalar(t[0] as u32);
        let b = encode_utf8(t.drop_first());
        assert forall|i: int| 0 <= i < encode_utf8(t).len() implies #[trigger] encode_utf8(t)[i] != 10u8 by {
            if i < a.len() {
                assert(encode_utf8(t)[i] == a[i]);
            } else {
                assert(encode_utf8(t)[i] == b[i - a.len()]);
            }
        }
    }
}

/// The encoding of a line, `\n` and a rest is the line's encoding, the byte 10 and
/// the rest's encoding.
pub proof fn lemma_encode_line(l: Seq<char>, rest: Seq<char>)
    ensures
        encode_utf8(l + seq!['\n'] + rest) == encode_utf8(l) + seq![10u8] + encode_utf8(rest),
{
    let nl = seq!['\n'];
    lemma_encode_utf8_concat(l, nl);
    lemma_encode_utf8_concat(l + nl, rest);
    lemma_encode_scalar_newline('\n');
    assert(nl[0] == '\n');
    assert(nl.drop_first() =~= Seq::<char>::empty());
    assert(encode_utf8(nl.drop_first()) =~= Seq::<u8>::empty());
    assert(encode_utf8(nl) == encode_scalar(nl[0] as u32) + encode_utf8(nl.drop_first()));
    assert(encode_utf8(nl) =~= seq![10u8]);
}

/// The encoding of a text that is not empty is not empty, and ends with the byte 10
/// exactly when the text ends with `\n`.
pub proof fn lemma_encode_last_newline(t: Seq<char>)
    ensures
        t.len() > 0 ==> encode_utf8(t).len() > 0 && (encode_utf8(t).last() == 10u8 <==> t.last()
            == '\n'),
{
    if t.len() > 0 {
        let c = t.last();
        let init = t.drop_last();
        assert(t =~= init + seq![c]);
        lemma_encode_utf8_concat(init, seq![c]);
        let one = seq![c];
        assert(one[0] == c);
        assert(one.drop_first() =~= Seq::<char>::empty());
        assert(encode_utf8(one.drop_first()) =~= Seq::<u8>::empty());
        assert(encode_utf8(one) == encode_scalar(one[0] as u32) + encode_utf8(one.drop_first()));
        assert(encode_utf8(one) =~= encode_scalar(c as u32));
        char_is_scalar(c);
        lemma_encode_scalar_newline(c);
        let sc = encode_scalar(c as u32);
        assert(sc.len() > 0);
        assert(encode_utf8(t).last() == sc.last());
        if c != '\n' {
            assert(sc[sc.len() - 1] != 10u8);
        }
    }
}

/// Cutting the UTF-8 encoding of a text at the byte 10 gives the encodings of the
/// pieces that cutting the text at `\n` gives.
pub proof fn lemma_encode_split_lines(t: Seq<char>)
    ensures
        split_lines(encode_utf8(t), 10u8) == split_lines(t, '\n').map_values(
            |l: Seq<char>| encode_utf8(l),
        ),
    decreases t.len(),
{
    if t.len() == 0 {
        assert(split_lines(t, '\n').map_values(|l: Seq<char>| encode_utf8(l)) =~= Seq::<Seq<u8>>::empty());
    } else {
        lemma_find_first(t, '\n');
        let e = find_first(t, '\n');
        if e >= t.len() {
            lemma_encode_no_newline(t);
            let b = encode_utf8(t);
            lemma_encode_scalar_newline(t[0]);
            assert(b.len() > 0) by {
                char_is_scalar(t[0]);
            }
            lemma_find_first(b, 10u8);
            assert(find_first(b, 10u8) == b.len());
            assert(split_lines(t, '\n') =~= seq![t]);
            assert(split_lines(t, '\n').map_values(|l: Seq<char>| encode_utf8(l)) =~= seq![b]);
        } else {
            let a = t.take(e);
            let rest = t.skip(e + 1);
            assert(t =~= a + seq!['\n'] + rest);
            lemma_encode_utf8_concat(a, seq!['\n']);
            lemma_encode_utf8_concat(a + seq!['\n'], rest);
            lemma_encode_scalar_newline('\n');
            assert(encode_utf8(seq!['\n']) =~= seq![10u8]) by {
                let nl = seq!['\n'];
                assert(nl[0] == '\n');
                assert(nl.drop_first() =~= Seq::<char>::empty());
                assert(encode_utf8(nl.drop_first()) =~= Seq::<u8>::empty());
                assert(encode_utf8(nl) == encode_scalar(nl[0] as u32) + encode_utf8(nl.drop_first()));
            }
            lemma_encode_no_newline(a);
            lemma_split_lines_first(encode_utf8(a), 10u8, encode_utf8(rest));
            lemma_encode_split_lines(rest);
            assert(split_lines(t, '\n') =~= seq![a] + split_lines(rest, '\n'));
            assert(split_lines(t, '\n').map_values(|l: Seq<char>| encode_utf8(l)) =~= seq![
                encode_utf8(a),
            ] + split_lines(rest, '\n').map_values(|l: Seq<char>| encode_utf8(l)));
        }
    }
}

/// The number of bytes that the UTF-8 encoding of `c` takes.
pub fn utf8_width(c: char) -> (w: usize)
    ensures
        w == encode_scalar(c as u32).len(),
        1 <= w <= 4,
{
    proof {
        char_is_scalar(c);
    }
    let u = c as u32;
    if u < 0x80 {
        1
    } else if u < 0x800 {
        2
    } else if u < 0x10000 {
        3
    } else {
        4
    }
}

/// The byte offset of character position `i` in `v`, given that the whole of `v`
/// encodes to no more than `usize::MAX` bytes.
pub fn byte_offset_of(v: &Vec<char>, i: usize) -> (n: usize)
    requires
        i <= v@.len(),
        encode_utf8(v@).len() <= usize::MAX,
    ensures
        n == byte_offset(v@, i as int),
{
    let mut n: usize = 0;
    let mut j: usize = 0;
    proof {
        assert(v@.take(0) =~= Seq::<char>::empty());
        lemma_encode_utf8_concat(v@.take(i as int), v@.skip(i as int));
        assert(v@.take(i as int) + v@.skip(i as int) =~= v@);
    }
    while j < i
        invariant
            0 <= j <= i <= v@.len(),
            encode_utf8(v@.take(i as int)).len() <= usize::MAX,
            n == byte_offset(v@, j as int),
        decreases i - j,
    {
        let w = utf8_width(v[j]);
        proof {
            let c = v@[j as int];
            assert(v@.take(j + 1) =~= v@.take(j as int) + seq![c]);
            lemma_encode_utf8_concat(v@.take(j as int), seq![c]);
            assert(seq![c].drop_first() =~= Seq::<char>::empty());
            assert(encode_utf8(Seq::<char>::empty()) =~= Seq::<u8>::empty());
            assert(seq![c][0] == c);
            assert(encode_utf8(seq![c]) =~= encode_scalar(c as u32) + encode_utf8(
                Seq::<char>::empty(),
            ));
            assert(encode_utf8(v@.take(j + 1)).len() == n + w);
            lemma_encode_utf8_concat(v@.take(j + 1), v@.take(i as int).skip(j + 1));
            assert(v@.take(j + 1) + v@.take(i as int).skip(j + 1) =~= v@.take(i as int));
        }
        n = n + w;
        j = j + 1;
    }
    n
}

// ---------------------------------------------------------------------------
// Decimal numbers

/// The character of the decimal digit `d` (below 10).
pub open spec fn digit_char(d: nat) -> char {
    if d == 0 {
        '0'
    } else if d == 1 {
        '1'
    } else if d == 2 {
        '2'
    } else if d == 3 {
        '3'
    } else if d == 4 {
        '4'
    } else if d == 5 {
        '5'
    } else if d == 6 {
        '6'
    } else if d == 7 {
        '7'
    } else if d == 8 {
        '8'
    } else {
        '9'
    }
}

/// The value of the decimal digit character `c`.
pub open spec fn digit_value(c: char) -> nat {
    ((c as u32) - ('0' as u32)) as nat
}

/// The shortest decimal spelling of `n`.
pub open spec fn decimal(n: nat) -> Seq<char>
    decreases n,
{
    if n < 10 {
        seq![digit_char(n)]
    } else {
        decimal(n / 10).push(digit_char(n % 10))
    }
}

/// The value of a string of decimal digits (0 for the empty string).
pub open spec fn digits_value(s: Seq<char>) -> nat
    decreases s.len(),
{
    if s.len() == 0 {
        0
    } else {
        digits_value(s.drop_last()) * 10 + digit_value(s.last())
    }
}

/// The decimal digit `d` as a character.
pub fn digit_to_char(d: usize) -> (c: char)
    requires
        d < 10,
    ensures
        c == digit_char(d as nat),
{
    if d == 0 {
        '0'
    } else if d == 1 {
        '1'
    } else if d == 2 {
        '2'
    } else if d == 3 {
        '3'
    } else if d == 4 {
        '4'
    } else if d == 5 {
        '5'
    } else if d == 6 {
        '6'
    } else if d == 7 {
        '7'
    } else if d == 8 {
        '8'
    } else {
        '9'
    }
}

/// Appends the decimal spelling of `n` to `s`.
pub fn push_decimal(s: &mut String, n: usize)
    ensures
        final(s)@ == old(s)@ + decimal(n as nat),
    decreases n,
{
    if n < 10 {
        push_char(s, digit_to_char(n));
        proof {
            assert(final(s)@ =~= old(s)@ + decimal(n as nat));
        }
    } else {
        push_decimal(s, n / 10);
        push_char(s, digit_to_char(n % 10));
        proof {
            assert(final(s)@ =~= old(s)@ + decimal(n as nat));
        }
    }
}

/// Every character of a decimal spelling is a digit, and the spelling reads back as the number.
pub proof fn lemma_decimal(n: nat)
    ensures
        decimal(n).len() >= 1,
        forall|i: int| 0 <= i < decimal(n).len() ==> in_class(#[trigger] decimal(n)[i], CharClass::Digit),
        digits_value(decimal(n)) == n,
    decreases n,
{
    if n < 10 {
        assert(decimal(n).drop_last() =~= Seq::<char>::empty());
        assert(digits_value(Seq::<char>::empty()) == 0);
        assert(digit_value(digit_char(n)) == n);
    } else {
        lemma_decimal(n / 10);
        assert(decimal(n).drop_last() =~= decimal(n / 10));
        assert(decimal(n).last() == digit_char(n % 10));
        assert(digit_value(digit_char(n % 10)) == n % 10);
        assert(n == (n / 10) * 10 + n % 10);
        assert(digits_value(decimal(n)) == digits_value(decimal(n / 10)) * 10 + n % 10);
        assert forall|i: int| 0 <= i < decimal(n).len() implies in_class(
            #[trigger] decimal(n)[i],
            CharClass::Digit,
        ) by {
            if i < decimal(n).len() - 1 {
                assert(decimal(n)[i] == decimal(n / 10)[i]);
            }
        }
    }
}

// ---------------------------------------------------------------------------
// Trimming

/// `s` without its leading white space.
pub open spec fn trim_start(s: Seq<char>) -> Seq<char>
    decreases s.len(),
{
    if s.len() > 0 && is_whitespace(s[0]) {
        trim_start(s.drop_first())
    } else {
        s
    }
}

/// `s` without its trailing white space.
pub open spec fn trim_end(s: Seq<char>) -> Seq<char>
    decreases s.len(),
{
    if s.len() > 0 && is_whitespace(s.last()) {
        trim_end(s.drop_last())
    } else {
        s
    }
}

/// `s` without white space at either end, as Rust's `str::trim` returns it.
pub open spec fn trim(s: Seq<char>) -> Seq<char> {
    trim_end(trim_start(s))
}

/// Trimming the start never lengthens a text, and shortens one that starts with
/// white space.
proof fn lemma_trim_start_len(s: Seq<char>)
    ensures
        trim_start(s).len() <= s.len(),
        s.len() > 0 && is_whitespace(s[0]) ==> trim_start(s).len() < s.len(),
    decreases s.len(),
{
    if s.len() > 0 && is_whitespace(s[0]) {
        lemma_trim_start_len(s.drop_first());
    }
}

/// Trimming the end never lengthens a text, and shortens one that ends with white
/// space.
proof fn lemma_trim_end_len(s: Seq<char>)
    ensures
        trim_end(s).len() <= s.len(),
        s.len() > 0 && is_whitespace(s.last()) ==> trim_end(s).len() < s.len(),
    decreases s.len(),
{
    if s.len() > 0 && is_whitespace(s.last()) {
        lemma_trim_end_len(s.drop_last());
    }
}

/// A non-empty text that trimming leaves as it is has no white space at either end.
pub proof fn lemma_trimmed_ends(s: Seq<char>)
    requires
        trim(s) == s,
        s.len() > 0,
    ensures
        !is_whitespace(s[0]),
        !is_whitespace(s.last()),
{
    lemma_trim_start_len(s);
    lemma_trim_end_len(trim_start(s));
    lemma_trim_end_len(s);
}

/// `v[from..to]` without white space at either end, as a new string.
pub fn trimmed_string(v: &Vec<char>, from: usize, to: usize) -> (s: String)
    requires
        from <= to <= v@.len(),
    ensures
        s@ == trim(v@.subrange(from as int, to as int)),
{
    let ghost whole = v@.subrange(from as int, to as int);
    let mut a = from;
    while a < to && char_in_class(v[a], CharClass::Whitespace)
        invariant
            from <= a <= to <= v@.len(),
            trim_start(whole) == trim_start(v@.subrange(a as int, to as int)),
        decreases to - a,
    {
        proof {
            assert(v@.subrange(a as int, to as int).drop_first() =~= v@.subrange(a + 1, to as int));
        }
        a = a + 1;
    }
    proof {
        assert(whole =~= v@.subrange(from as int, to as int));
    }
    let mut b = to;
    while b > a && char_in_class(v[b - 1], CharClass::Whitespace)
        invariant
            from <= a <= b <= to <= v@.len(),
            trim(whole) == trim_end(v@.subrange(a as int, b as int)),
        decreases b - a,
    {
        proof {
            assert(v@.subrange(a as int, b as int).drop_last() =~= v@.subrange(a as int, b - 1));
        }
        b = b - 1;
    }
    proof {
        assert(trim_end(v@.subrange(a as int, b as int)) == v@.subrange(a as int, b as int));
    }
    string_of(v, a, b)
}

// ---------------------------------------------------------------------------
// Splitting into lines

/// The index of the first `sep` in `s`, or the length of `s` when there is none.
pub open spec fn find_first<T>(s: Seq<T>, sep: T) -> int
    decreases s.len(),
{
    if s.len() == 0 {
        0
    } else if s[0] == sep {
        0
    } else {
        1 + find_first(s.drop_first(), sep)
    }
}

/// The pieces of `s` between the separators, and a last piece after the last
/// separator only when it is not empty: the lines as `BufRead::lines` cuts them,
/// before it drops carriage returns.
pub open spec fn split_lines<T>(s: Seq<T>, sep: T) -> Seq<Seq<T>>
    decreases s.len(),
{
    if s.len() == 0 {
        seq![]
    } else {
        let e = find_first(s, sep);
        if e >= s.len() {
            seq![s]
        } else {
            proof {
                lemma_find_first(s, sep);
            }
            seq![s.take(e)] + split_lines(s.skip(e + 1), sep)
        }
    }
}

/// The position of the first separator lies within the text; none comes before it.
pub proof fn lemma_find_first<T>(s: Seq<T>, sep: T)
    ensures
        0 <= find_first(s, sep) <= s.len(),
        find_first(s, sep) < s.len() ==> s[find_first(s, sep)] == sep,
        forall|j: int| 0 <= j < find_first(s, sep) ==> s[j] != sep,
    decreases s.len(),
{
    if s.len() > 0 && s[0] != sep {
        lemma_find_first(s.drop_first(), sep);
        assert forall|j: int| 0 <= j < find_first(s, sep) implies s[j] != sep by {
            if j > 0 {
                assert(s[j] == s.drop_first()[j - 1]);
            }
        }
    }
}

/// Cutting a text that starts with a piece free of separators, and a separator,
/// gives that piece and then the cuts of the rest.
pub proof fn lemma_split_lines_first<T>(a: Seq<T>, sep: T, b: Seq<T>)
    requires
        forall|i: int| 0 <= i < a.len() ==> a[i] != sep,
    ensures
        split_lines(a + seq![sep] + b, sep) == seq![a] + split_lines(b, sep),
{
    let s = a + seq![sep] + b;
    lemma_find_first(s, sep);
    assert(s[a.len() as int] == sep);
    assert forall|j: int| 0 <= j < a.len() implies s[j] != sep by {
        assert(s[j] == a[j]);
    }
    assert(find_first(s, sep) == a.len());
    assert(s.take(a.len() as int) =~= a);
    assert(s.skip(a.len() as int + 1) =~= b);
}

/// Cutting a text that is empty or ends with a separator, followed by a piece free
/// of separators and a separator, gives the cuts of the text and then the piece.
pub proof fn lemma_split_lines_append<T>(p: Seq<T>, a: Seq<T>, sep: T)
    requires
        p.len() == 0 || p.last() == sep,
        forall|i: int| 0 <= i < a.len() ==> a[i] != sep,
    ensures
        split_lines(p + a + seq![sep], sep) == split_lines(p, sep).push(a),
    decreases p.len(),
{
    if p.len() == 0 {
        assert(p + a + seq![sep] =~= a + seq![sep] + Seq::<T>::empty());
        lemma_split_lines_first(a, sep, Seq::<T>::empty());
        assert(split_lines(Seq::<T>::empty(), sep) =~= Seq::<Seq<T>>::empty());
        assert(split_lines(p, sep) =~= Seq::<Seq<T>>::empty());
        assert(seq![a] + Seq::<Seq<T>>::empty() =~= Seq::<Seq<T>>::empty().push(a));
    } else {
        lemma_find_first(p, sep);
        let e = find_first(p, sep);
        assert(e < p.len()) by {
            if e >= p.len() {
                assert(p[p.len() - 1] == sep);
            }
        }
        let head = p.take(e);
        let q = p.skip(e + 1);
        assert forall|j: int| 0 <= j < head.len() implies head[j] != sep by {
            assert(head[j] == p[j]);
        }
        assert(p =~= head + seq![sep] + q);
        assert(p + a + seq![sep] =~= head + seq![sep] + (q + a + seq![sep]));
        assert(q.len() == 0 || q.last() == sep) by {
            if q.len() > 0 {
                assert(q.last() == p.last());
            }
        }
        lemma_split_lines_append(q, a, sep);
        lemma_split_lines_first(head, sep, q + a + seq![sep]);
        lemma_split_lines_first(head, sep, q);
        assert(seq![head] + split_lines(q, sep).push(a) =~= (seq![head] + split_lines(q, sep)).push(a));
    }
}

/// `line` without one trailing carriage return.
pub open spec fn strip_cr(line: Seq<char>) -> Seq<char> {
    if line.len() > 0 && line.last() == '\r' {
        line.drop_last()
    } else {
        line
    }
}

/// A line as `BufRead::lines` hands it on: without one trailing carriage return when
/// a line feed ended it, as it is otherwise.
pub open spec fn read_line(line: Seq<char>, ended: bool) -> Seq<char> {
    if ended {
        strip_cr(line)
    } else {
        line
    }
}

/// Whether piece `i` of the lines of `s` was ended by a separator: every piece but
/// the last one is, and the last one is when `s` ends with the separator.
pub open spec fn line_ended<T>(s: Seq<T>, sep: T, i: int) -> bool {
    i + 1 < split_lines(s, sep).len() || (s.len() > 0 && s.last() == sep)
}

/// The lines of `text` as `BufRead::lines` yields them: cut at each `\n`, with a
/// carriage return just before a `\n` dropped.
pub open spec fn text_lines(text: Seq<char>) -> Seq<Seq<char>> {
    split_lines(text, '\n').map(|i: int, l: Seq<char>| read_line(l, line_ended(text, '\n', i)))
}

/// The first line of a text that is not empty was ended by a separator exactly when
/// the text holds one.
pub proof fn lemma_line_ended_first<T>(s: Seq<T>, sep: T)
    requires
        s.len() > 0,
    ensures
        line_ended(s, sep, 0) == (find_first(s, sep) < s.len()),
{
    lemma_find_first(s, sep);
    let e = find_first(s, sep);
    if e < s.len() {
        let r = s.skip(e + 1);
        if r.len() == 0 {
            assert(e == s.len() - 1);
        } else {
            assert(split_lines(r, sep).len() > 0);
        }
    } else {
        assert(split_lines(s, sep) =~= seq![s]);
        assert(s[s.len() - 1] != sep);
    }
}

/// The pieces of a text after some of its first pieces were ended as those of the
/// rest of the text were.
pub proof fn lemma_line_ended_suffix<T>(s: Seq<T>, sep: T, done: Seq<Seq<T>>, r: Seq<T>, j: int)
    requires
        split_lines(s, sep) == done + split_lines(r, sep),
        r.len() > 0,
        s.len() > 0,
        s.last() == r.last(),
    ensures
        line_ended(s, sep, done.len() + j) == line_ended(r, sep, j),
{
}

/// The position of the first `sep` at or after `from` in `v`, or the length of `v`.
pub fn find_char(v: &Vec<char>, from: usize, sep: char) -> (e: usize)
    requires
        from <= v@.len(),
    ensures
        e == from + find_first(v@.skip(from as int), sep),
{
    let mut j = from;
    while j < v.len() && v[j] != sep
        invariant
            from <= j <= v@.len(),
            find_first(v@.skip(from as int), sep) == (j - from) + find_first(
                v@.skip(j as int),
                sep,
            ),
        decreases v@.len() - j,
    {
        proof {
            assert(v@.skip(j as int).drop_first() =~= v@.skip(j + 1));
        }
        j = j + 1;
    }
    j
}

/// The position of the first `\n` byte at or after `from` in `v`, or the length of `v`.
pub fn find_newline_byte(v: &[u8], from: usize) -> (e: usize)
    requires
        from <= v@.len(),
    ensures
        e == from + find_first(v@.skip(from as int), 10u8),
{
    let mut j = from;
    while j < v.len() && v[j] != 10u8
        invariant
            from <= j <= v@.len(),
            find_first(v@.skip(from as int), 10u8) == (j - from) + find_first(
                v@.skip(j as int),
                10u8,
            ),
        decreases v@.len() - j,
    {
        proof {
            assert(v@.skip(j as int).drop_first() =~= v@.skip(j + 1));
        }
        j = j + 1;
    }
    j
}

/// The lines of `text`, each without its line ending, as `BufRead::lines` yields them.
pub fn lines_of(text: &str) -> (lines: Vec<String>)
    ensures
        lines@.map_values(|l: String| l@) == text_lines(text@),
{
    let v = chars_of(text);
    let mut lines: Vec<String> = Vec::new();
    let mut pos: usize = 0;
    let ghost mut done: Seq<Seq<char>> = seq![];
    proof {
        assert(v@.skip(0) =~= v@);
        assert(done + split_lines(v@, '\n') =~= split_lines(v@, '\n'));
    }
    while pos < v.len()
        invariant
            pos <= v@.len(),
            v@ == text@,
            split_lines(text@, '\n') == done + split_lines(v@.skip(pos as int), '\n'),
            lines@.len() == done.len(),
            forall|i: int|
                0 <= i < lines@.len() ==> #[trigger] lines@[i]@ == read_line(
                    done[i],
                    line_ended(text@, '\n', i),
                ),
        decreases v@.len() - pos,
    {
        let e = find_char(&v, pos, '\n');
        let ghost rest = v@.skip(pos as int);
        proof {
            lemma_find_first(rest, '\n');
            lemma_line_ended_first(rest, '\n');
            assert(rest.last() == v@.last());
            lemma_line_ended_suffix(text@, '\n', done, rest, 0);
        }
        let mut end = e;
        if e < v.len() && end > pos && v[end - 1] == '\r' {
            end = end - 1;
        }
        let line = string_of(&v, pos, end);
        proof {
            assert(rest.take(e - pos) =~= v@.subrange(pos as int, e as int));
            assert(line@ == read_line(rest.take(e - pos), e < v@.len())) by {
                if e < v@.len() && e > pos && v@[e - 1] == '\r' {
                    assert(v@.subrange(pos as int, e as int).drop_last() =~= v@.subrange(
                        pos as int,
                        e - 1,
                    ));
                }
            }
        }
        let ghost before = lines@;
        let ghost k = done.len() as int;
        lines.push(line);
        if e < v.len() {
            proof {
                assert(rest.skip(e - pos + 1) =~= v@.skip(e + 1));
                done = done + seq![rest.take(e - pos)];
            }
            pos = e + 1;
        } else {
            proof {
                assert(rest.take(e - pos) =~= rest);
                assert(v@.skip(e as int) =~= Seq::<char>::empty());
                done = done + seq![rest];
            }
            pos = e;
        }
        proof {
            assert forall|i: int| 0 <= i < lines@.len() implies #[trigger] lines@[i]@ == read_line(
                done[i],
                line_ended(text@, '\n', i),
            ) by {
                if i < lines@.len() - 1 {
                    assert(lines@[i] == before[i]);
                }
            }
        }
    }
    proof {
        assert(v@.skip(pos as int) =~= Seq::<char>::empty());
        assert(done + Seq::<Seq<char>>::empty() =~= done);
        assert(lines@.map_values(|l: String| l@) =~= text_lines(text@));
    }
    lines
}

/// Calls `String::from_utf8`, which accepts exactly the valid UTF-8 byte strings
/// and then holds the characters they encode.
#[verifier::external_body]
pub(crate) fn utf8_to_string(bytes: Vec<u8>) -> (s: Option<String>)
    ensures
        s is Some <==> valid_utf8(bytes@),
        s matches Some(t) ==> t@ == decode_utf8(bytes@),
{
    String::from_utf8(bytes).ok()
}

} // verus!
