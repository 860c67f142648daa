//! Text as sequences of characters: white space, words, lines, and decimal
//! numbers.

use vstd::prelude::*;
use vstd::std_specs::iter::IteratorSpec;

verus! {

/// `String::push` appends one character to the string and changes nothing
/// else of it.
pub assume_specification[ String::push ](s: &mut String, ch: char)
    ensures
        final(s)@ == old(s)@.push(ch),
;

/// The texts that a list of strings holds, in order.
pub open spec fn texts(v: Seq<String>) -> Seq<Seq<char>> {
    Seq::new(v.len(), |i: int| v[i]@)
}

/// A copy of `v`.
pub fn copy_texts(v: &Vec<String>) -> (r: Vec<String>)
    ensures
        texts(r@) == texts(v@),
{
    let mut r: Vec<String> = Vec::new();
    let mut i: usize = 0;
    while i < v.len()
        invariant
            i <= v.len(),
            r.len() == i,
            forall|k: int| 0 <= k < i ==> r@[k]@ == v@[k]@,
        decreases v.len() - i,
    {
        r.push(v[i].clone());
        i += 1;
    }
    assert(texts(r@) =~= texts(v@));
    r
}

/// Whether `c` is white space: a character with the Unicode property
/// `White_Space`.
pub open spec fn spec_is_space(c: char) -> bool {
    let n = c as u32;
    ||| 0x09 <= n <= 0x0d
    ||| n == 0x20
    ||| n == 0x85
    ||| n == 0xa0
    ||| n == 0x1680
    ||| 0x2000 <= n <= 0x200a
    ||| n == 0x2028
    ||| n == 0x2029
    ||| n == 0x202f
    ||| n == 0x205f
    ||| n == 0x3000
}

#[verifier::when_used_as_spec(spec_is_space)]
pub fn is_space(c: char) -> (r: bool)
    ensures
        r == spec_is_space(c),
{
    let n: u32 = c as u32;
    (0x09 <= n && n <= 0x0d) || n == 0x20 || n == 0x85 || n == 0xa0 || n == 0x1680 || (0x2000 <= n
        && n <= 0x200a) || n == 0x2028 || n == 0x2029 || n == 0x202f || n == 0x205f || n == 0x3000
}

/// The characters of `s`, in order.
pub fn to_chars(s: &str) -> (r: Vec<char>)
    ensures
        r@ == s@,
{
    let mut r: Vec<char> = Vec::new();
    for c in it: s.chars()
        invariant
            r@ == it.seq().take(it.index() as int),
            it.seq() == s@,
    {
        r.push(c);
    }
    r
}

/// The text that `cs` holds from `from` up to `to`.
fn to_text(cs: &Vec<char>, from: usize, to: usize) -> (r: String)
    requires
        from <= to <= cs.len(),
    ensures
        r@ == cs@.subrange(from as int, to as int),
{
    let mut r = String::new();
    let mut i: usize = from;
    while i < to
        invariant
            from <= i <= to <= cs.len(),
            r@ == cs@.subrange(from as int, i as int),
        decreases to - i,
    {
        r.push(cs[i]);
        assert(cs@.subrange(from as int, i + 1) =~= cs@.subrange(from as int, i as int).push(cs@[i as int]));
        i += 1;
    }
    r
}

/// The first position at or after `i` that holds no white space, or the
/// length of `s`.
pub open spec fn spaces_end(s: Seq<char>, i: int) -> int
    decreases s.len() - i,
{
    if 0 <= i < s.len() && spec_is_space(s[i]) {
        spaces_end(s, i + 1)
    } else {
        i
    }
}

/// The first position at or after `i` that holds white space, or the length
/// of `s`.
pub open spec fn word_end(s: Seq<char>, i: int) -> int
    decreases s.len() - i,
{
    if 0 <= i < s.len() && !spec_is_space(s[i]) {
        word_end(s, i + 1)
    } else {
        i
    }
}

/// The position behind the last character before `n` that is no white
/// space, or 0.
pub open spec fn content_end(s: Seq<char>, n: int) -> int
    decreases n,
{
    if 0 < n <= s.len() && spec_is_space(s[n - 1]) {
        content_end(s, n - 1)
    } else {
        n
    }
}

/// The first position at or after `i` that holds a line feed, or the length
/// of `s`.
pub open spec fn line_end(s: Seq<char>, i: int) -> int
    decreases s.len() - i,
{
    if 0 <= i < s.len() && s[i] != '\n' {
        line_end(s, i + 1)
    } else {
        i
    }
}

pub proof fn lemma_spaces_end(s: Seq<char>, i: int)
    requires
        0 <= i <= s.len(),
    ensures
        i <= spaces_end(s, i) <= s.len(),
        spaces_end(s, i) < s.len() ==> !spec_is_space(s[spaces_end(s, i)]),
        forall|j: int| i <= j < spaces_end(s, i) ==> spec_is_space(#[trigger] s[j]),
    decreases s.len() - i,
{
    if i < s.len() && spec_is_space(s[i]) {
        lemma_spaces_end(s, i + 1);
    }
}

pub proof fn lemma_word_end(s: Seq<char>, i: int)
    requires
        0 <= i <= s.len(),
    ensures
        i <= word_end(s, i) <= s.len(),
        i < s.len() && !spec_is_space(s[i]) ==> i < word_end(s, i),
        word_end(s, i) < s.len() ==> spec_is_space(s[word_end(s, i)]),
        forall|j: int| i <= j < word_end(s, i) ==> !spec_is_space(#[trigger] s[j]),
    decreases s.len() - i,
{
    if i < s.len() && !spec_is_space(s[i]) {
        lemma_word_end(s, i + 1);
    }
}

pub proof fn lemma_content_end(s: Seq<char>, n: int)
    requires
        0 <= n <= s.len(),
    ensures
        0 <= content_end(s, n) <= n,
        content_end(s, n) > 0 ==> !spec_is_space(s[content_end(s, n) - 1]),
        forall|j: int| content_end(s, n) <= j < n ==> spec_is_space(#[trigger] s[j]),
    decreases n,
{
    if 0 < n && spec_is_space(s[n - 1]) {
        lemma_content_end(s, n - 1);
    }
}

pub proof fn lemma_line_end(s: Seq<char>, i: int)
    requires
        0 <= i <= s.len(),
    ensures
        i <= line_end(s, i) <= s.len(),
        line_end(s, i) < s.len() ==> s[line_end(s, i)] == '\n',
        forall|j: int| i <= j < line_end(s, i) ==> #[trigger] s[j] != '\n',
    decreases s.len() - i,
{
    if i < s.len() && s[i] != '\n' {
        lemma_line_end(s, i + 1);
    }
}

/// The words of `s` from position `i` on: the longest runs of characters
/// that are no white space, in order.
pub open spec fn words_from(s: Seq<char>, i: int) -> Seq<Seq<char>>
    decreases s.len() - i,
    via words_from_decreases
{
    let a = spaces_end(s, i);
    if 0 <= i && a < s.len() {
        seq![s.subrange(a, word_end(s, a))] + words_from(s, word_end(s, a))
    } else {
        Seq::empty()
    }
}

#[via_fn]
proof fn words_from_decreases(s: Seq<char>, i: int) {
    let a = spaces_end(s, i);
    if 0 <= i && a < s.len() {
        lemma_spaces_end(s, i);
        lemma_word_end(s, a);
    }
}

/// The words of `s`.
pub open spec fn words(s: Seq<char>) -> Seq<Seq<char>> {
    words_from(s, 0)
}

/// The lines of `s` from position `i` on: what stands between one line feed
/// and the next, the last line ending with `s`.
pub open spec fn lines_from(s: Seq<char>, i: int) -> Seq<Seq<char>>
    decreases s.len() - i,
    via lines_from_decreases
{
    let e = line_end(s, i);
    if 0 <= i <= s.len() {
        if e < s.len() {
            seq![s.subrange(i, e)] + lines_from(s, e + 1)
        } else {
            seq![s.subrange(i, e)]
        }
    } else {
        Seq::empty()
    }
}

#[via_fn]
proof fn lines_from_decreases(s: Seq<char>, i: int) {
    if 0 <= i <= s.len() {
        lemma_line_end(s, i);
    }
}

/// The lines of `s`. A text that ends in a line feed has an empty last line.
pub open spec fn lines(s: Seq<char>) -> Seq<Seq<char>> {
    lines_from(s, 0)
}

/// `s` without the white space at its two ends.
pub open spec fn spec_trim(s: Seq<char>) -> Seq<char> {
    let a = spaces_end(s, 0);
    let b = content_end(s, s.len() as int);
    if a < b {
        s.subrange(a, b)
    } else {
        Seq::empty()
    }
}

/// A word is never empty and holds no white space.
pub proof fn law_words_hold_no_space(s: Seq<char>, i: int)
    requires
        0 <= i <= s.len(),
    ensures
        forall|k: int|
            0 <= k < words_from(s, i).len() ==> (#[trigger] words_from(s, i)[k]).len() > 0,
        forall|k: int, j: int|
            0 <= k < words_from(s, i).len() && 0 <= j < words_from(s, i)[k].len()
                ==> !spec_is_space(#[trigger] words_from(s, i)[k][j]),
    decreases s.len() - i,
{
    let a = spaces_end(s, i);
    lemma_spaces_end(s, i);
    if a < s.len() {
        let b = word_end(s, a);
        lemma_word_end(s, a);
        law_words_hold_no_space(s, b);
        let w = s.subrange(a, b);
        let rest = words_from(s, b);
        assert(words_from(s, i) == seq![w] + rest);
        assert forall|k: int| 0 <= k < words_from(s, i).len() implies (#[trigger] words_from(
            s,
            i,
        )[k]).len() > 0 by {
            if k > 0 {
                assert(words_from(s, i)[k] == rest[k - 1]);
            }
        }
        assert forall|k: int, j: int|
            0 <= k < words_from(s, i).len() && 0 <= j < words_from(s, i)[k].len()
                implies !spec_is_space(#[trigger] words_from(s, i)[k][j]) by {
            if k > 0 {
                assert(words_from(s, i)[k] == rest[k - 1]);
            } else {
                assert(w[j] == s[a + j]);
            }
        }
    }
}

/// A text has at least one line, and no line holds a line feed.
pub proof fn law_lines_hold_no_line_feed(s: Seq<char>, i: int)
    requires
        0 <= i <= s.len(),
    ensures
        lines_from(s, i).len() > 0,
        forall|k: int, j: int|
            0 <= k < lines_from(s, i).len() && 0 <= j < lines_from(s, i)[k].len()
                ==> #[trigger] lines_from(s, i)[k][j] != '\n',
    decreases s.len() - i,
{
    let e = line_end(s, i);
    lemma_line_end(s, i);
    let l = s.subrange(i, e);
    if e < s.len() {
        law_lines_hold_no_line_feed(s, e + 1);
        let rest = lines_from(s, e + 1);
        assert(lines_from(s, i) == seq![l] + rest);
        assert forall|k: int, j: int|
            0 <= k < lines_from(s, i).len() && 0 <= j < lines_from(s, i)[k].len()
                implies #[trigger] lines_from(s, i)[k][j] != '\n' by {
            if k > 0 {
                assert(lines_from(s, i)[k] == rest[k - 1]);
            } else {
                assert(l[j] == s[i + j]);
            }
        }
    } else {
        assert forall|k: int, j: int|
            0 <= k < lines_from(s, i).len() && 0 <= j < lines_from(s, i)[k].len()
                implies #[trigger] lines_from(s, i)[k][j] != '\n' by {
            assert(l[j] == s[i + j]);
        }
    }
}

/// What `spec_trim` leaves neither begins nor ends with white space, and
/// what it takes away is white space only.
pub proof fn law_trim_strips_white_space(s: Seq<char>)
    ensures
        spec_trim(s).len() > 0 ==> !spec_is_space(spec_trim(s).first()) && !spec_is_space(
            spec_trim(s).last(),
        ),
        spec_trim(s).len() == 0 ==> forall|j: int| 0 <= j < s.len() ==> spec_is_space(s[j]),
        spec_trim(s).len() > 0 ==> s == s.subrange(0, spaces_end(s, 0)) + spec_trim(s)
            + s.subrange(content_end(s, s.len() as int), s.len() as int),
        forall|j: int|
            0 <= j < spaces_end(s, 0) || content_end(s, s.len() as int) <= j < s.len()
                ==> spec_is_space(#[trigger] s[j]),
{
    let a = spaces_end(s, 0);
    let b = content_end(s, s.len() as int);
    lemma_spaces_end(s, 0);
    lemma_content_end(s, s.len() as int);
    if a < b {
        assert(spec_trim(s).first() == s[a]);
        assert(spec_trim(s).last() == s[b - 1]);
        assert(s =~= s.subrange(0, a) + spec_trim(s) + s.subrange(b, s.len() as int));
    } else {
        assert forall|j: int| 0 <= j < s.len() implies spec_is_space(s[j]) by {
            if j < a {
            } else {
                assert(b <= j);
            }
        }
    }
}

/// Skips white space: the result is `spaces_end(cs, i)`.
fn skip_spaces(cs: &Vec<char>, i: usize) -> (r: usize)
    requires
        i <= cs.len(),
    ensures
        r == spaces_end(cs@, i as int),
        i <= r <= cs.len(),
{
    let mut a: usize = i;
    while a < cs.len() && is_space(cs[a])
        invariant
            i <= a <= cs.len(),
            spaces_end(cs@, a as int) == spaces_end(cs@, i as int),
        decreases cs.len() - a,
    {
        a += 1;
    }
    a
}

/// Skips one word: the result is `word_end(cs, i)`.
fn skip_word(cs: &Vec<char>, i: usize) -> (r: usize)
    requires
        i <= cs.len(),
    ensures
        r == word_end(cs@, i as int),
        i <= r <= cs.len(),
{
    let mut b: usize = i;
    while b < cs.len() && !is_space(cs[b])
        invariant
            i <= b <= cs.len(),
            word_end(cs@, b as int) == word_end(cs@, i as int),
        decreases cs.len() - b,
    {
        b += 1;
    }
    b
}

/// Splits `s` into its words.
pub fn split_words(s: &str) -> (r: Vec<String>)
    ensures
        texts(r@) == words(s@),
{
    let cs = to_chars(s);
    let mut out: Vec<String> = Vec::new();
    let mut i: usize = 0;
    assert(texts(out@) =~= Seq::empty());
    loop
        invariant
            i <= cs.len(),
            cs@ == s@,
            texts(out@) + words_from(cs@, i as int) == words(cs@),
        ensures
            texts(out@) == words(cs@),
        decreases cs.len() - i,
    {
        let a = skip_spaces(&cs, i);
        if a >= cs.len() {
            assert(words_from(cs@, i as int) =~= Seq::empty());
            assert(texts(out@) + Seq::<Seq<char>>::empty() =~= texts(out@));
            break;
        }
        let b = skip_word(&cs, a);
        proof {
            lemma_spaces_end(cs@, i as int);
            lemma_word_end(cs@, a as int);
        }
        let word = to_text(&cs, a, b);
        let ghost before = out@;
        out.push(word);
        proof {
            let w = cs@.subrange(a as int, b as int);
            assert(texts(out@) =~= texts(before).push(w));
            assert(words_from(cs@, i as int) == seq![w] + words_from(cs@, b as int));
            assert(texts(before).push(w) + words_from(cs@, b as int)
                =~= texts(before) + (seq![w] + words_from(cs@, b as int)));
        }
        i = b;
    }
    out
}

/// Splits `s` into its lines.
pub fn split_lines(s: &str) -> (r: Vec<String>)
    ensures
        texts(r@) == lines(s@),
{
    let cs = to_chars(s);
    let mut out: Vec<String> = Vec::new();
    let mut i: usize = 0;
    assert(texts(out@) =~= Seq::empty());
    loop
        invariant_except_break
            texts(out@) + lines_from(cs@, i as int) == lines(cs@),
        invariant
            i <= cs.len(),
            cs@ == s@,
        ensures
            texts(out@) == lines(cs@),
        decreases cs.len() - i,
    {
        let mut e: usize = i;
        while e < cs.len() && cs[e] != '\n'
            invariant
                i <= e <= cs.len(),
                line_end(cs@, e as int) == line_end(cs@, i as int),
            decreases cs.len() - e,
        {
            e += 1;
        }
        let line = to_text(&cs, i, e);
        let ghost before = out@;
        let ghost l = cs@.subrange(i as int, e as int);
        out.push(line);
        assert(texts(out@) =~= texts(before).push(l));
        if e >= cs.len() {
            assert(lines_from(cs@, i as int) == seq![l]);
            assert(texts(before).push(l) =~= texts(before) + seq![l]);
            break;
        }
        proof {
            assert(lines_from(cs@, i as int) == seq![l] + lines_from(cs@, e + 1));
            assert(texts(before).push(l) + lines_from(cs@, e + 1)
                =~= texts(before) + (seq![l] + lines_from(cs@, e + 1)));
        }
        i = e + 1;
    }
    out
}

/// `s` without the white space at its two ends.
pub fn trim(s: &str) -> (r: String)
    ensures
        r@ == spec_trim(s@),
{
    let cs = to_chars(s);
    let a = skip_spaces(&cs, 0);
    let mut b: usize = cs.len();
    while b > 0 && is_space(cs[b - 1])
        invariant
            b <= cs.len(),
            content_end(cs@, b as int) == content_end(cs@, cs.len() as int),
        decreases b,
    {
        b -= 1;
    }
    if a < b {
        to_text(&cs, a, b)
    } else {
        String::new()
    }
}

/// Whether `c` is one of the ten decimal digits.
pub open spec fn is_digit(c: char) -> bool {
    '0' <= c <= '9'
}

/// The number that the digit `c` stands for.
pub open spec fn digit_value(c: char) -> nat {
    (c as u32 - '0' as u32) as nat
}

/// The digit that stands for `d`, a number below ten.
pub open spec fn digit_char(d: nat) -> char {
    if d == 0 {
        '0'
    } else if d == 1 {
        '1'
    } else if d == 2 {
        '2'
    } else if d == 3 {
        '3'
    } else if d == 4 {
        '4'
    } else if d == 5 {
        '5'
    } else if d == 6 {
        '6'
    } else if d == 7 {
        '7'
    } else if d == 8 {
        '8'
    } else {
        '9'
    }
}

/// The number that a run of decimal digits stands for.
pub open spec fn digits_value(s: Seq<char>) -> nat
    decreases s.len(),
{
    if s.len() == 0 {
        0
    } else {
        digits_value(s.drop_last()) * 10 + digit_value(s.last())
    }
}

/// Whether `s` holds decimal digits only.
pub open spec fn all_digits(s: Seq<char>) -> bool {
    forall|i: int| 0 <= i < s.len() ==> is_digit(#[trigger] s[i])
}

/// `s` without a plus sign at its front.
pub open spec fn unsigned_digits(s: Seq<char>) -> Seq<char> {
    if s.len() > 0 && s[0] == '+' {
        s.drop_first()
    } else {
        s
    }
}

/// The number that `s` is the decimal notation of: digits, at least one, with
/// or without a plus sign before them, whose value a `u32` can hold.
pub open spec fn spec_parse_u32(s: Seq<char>) -> Option<u32> {
    let d = unsigned_digits(s);
    if d.len() > 0 && all_digits(d) && digits_value(d) <= u32::MAX {
        Some(digits_value(d) as u32)
    } else {
        None
    }
}

/// The decimal notation of `n`, without a sign or leading zeros.
pub open spec fn spec_decimal(n: nat) -> Seq<char>
    decreases n,
{
    if n < 10 {
        seq![digit_char(n)]
    } else {
        spec_decimal(n / 10).push(digit_char(n % 10))
    }
}

/// A run of digits stands for no less than any of its beginnings.
pub proof fn lemma_digits_value_prefix(s: Seq<char>, i: int)
    requires
        0 <= i <= s.len(),
    ensures
        digits_value(s.take(i)) <= digits_value(s),
    decreases s.len(),
{
    if i == s.len() {
        assert(s.take(i) =~= s);
    } else {
        assert(s.drop_last().take(i) =~= s.take(i));
        lemma_digits_value_prefix(s.drop_last(), i);
    }
}

/// Reads a number in decimal notation.
pub fn parse_u32(s: &str) -> (r: Option<u32>)
    ensures
        r == spec_parse_u32(s@),
{
    let cs = to_chars(s);
    let start: usize = if cs.len() > 0 && cs[0] == '+' {
        1
    } else {
        0
    };
    let ghost d = unsigned_digits(s@);
    assert(d =~= cs@.subrange(start as int, cs.len() as int));
    if start == cs.len() {
        return None;
    }
    let mut acc: u64 = 0;
    let mut i: usize = start;
    assert(d.take(0) =~= Seq::empty());
    while i < cs.len()
        invariant
            start <= i <= cs.len(),
            d == unsigned_digits(s@),
            d == cs@.subrange(start as int, cs.len() as int),
            forall|k: int| 0 <= k < i - start ==> is_digit(#[trigger] d[k]),
            acc == digits_value(d.take(i - start)),
            acc <= u32::MAX,
        decreases cs.len() - i,
    {
        let c = cs[i];
        if !('0' <= c && c <= '9') {
            assert(!is_digit(d[i - start]));
            return None;
        }
        let v: u64 = (c as u32 - '0' as u32) as u64;
        let next: u64 = acc * 10 + v;
        proof {
            let p = d.take(i - start + 1);
            assert(p.drop_last() =~= d.take(i - start));
            assert(p.last() == c);
            assert(next == digits_value(p));
        }
        if next > u32::MAX as u64 {
            proof {
                lemma_digits_value_prefix(d, i - start + 1);
            }
            return None;
        }
        acc = next;
        i += 1;
    }
    assert(d.take(i - start) =~= d);
    Some(acc as u32)
}

fn digit(d: u32) -> (c: char)
    requires
        d < 10,
    ensures
        c == digit_char(d as nat),
{
    if d == 0 {
        '0'
    } else if d == 1 {
        '1'
    } else if d == 2 {
        '2'
    } else if d == 3 {
        '3'
    } else if d == 4 {
        '4'
    } else if d == 5 {
        '5'
    } else if d == 6 {
        '6'
    } else if d == 7 {
        '7'
    } else if d == 8 {
        '8'
    } else {
        '9'
    }
}

/// Writes a number in decimal notation.
pub fn decimal(n: u32) -> (r: String)
    ensures
        r@ == spec_decimal(n as nat),
    decreases n,
{
    if n < 10 {
        let mut r = String::new();
        r.push(digit(n));
        assert(r@ =~= seq![digit_char(n as nat)]);
        r
    } else {
        let mut r = decimal(n / 10);
        r.push(digit(n % 10));
        r
    }
}

/// What `decimal` writes is digits only, at least one, and stands for the
/// number written.
pub proof fn lemma_decimal_digits(n: nat)
    ensures
        spec_decimal(n).len() > 0,
        all_digits(spec_decimal(n)),
        digits_value(spec_decimal(n)) == n,
    decreases n,
{
    if n < 10 {
        let s = spec_decimal(n);
        assert(s.drop_last() =~= Seq::empty());
        assert(digits_value(s.drop_last()) == 0);
    } else {
        lemma_decimal_digits(n / 10);
        let s = spec_decimal(n);
        assert(s.drop_last() =~= spec_decimal(n / 10));
    }
}

/// Reading what `decimal` has written gives the number back.
pub proof fn law_decimal_round_trip(n: u32)
    ensures
        spec_parse_u32(spec_decimal(n as nat)) == Some(n),
{
    lemma_decimal_digits(n as nat);
    let s = spec_decimal(n as nat);
    assert(is_digit(s[0]));
}

} // verus!
