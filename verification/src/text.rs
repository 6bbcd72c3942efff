//! Text primitives: characters of a string, separator splitting, lines,
//! white space trimming and signed decimal numbers.

use vstd::prelude::*;

verus! {

/// `String::push` of the standard library, taken on trust: the character
/// is appended at the end of the string and nothing else changes. Verus
/// does not see the body of `push`; every string that this library builds
/// character by character rests on this statement.
pub assume_specification[ String::push ](s: &mut String, ch: char)
    ensures
        final(s)@ == old(s)@.push(ch),
;

/// The characters of `text`, in order.
pub fn chars_of(text: &str) -> (out: Vec<char>)
    ensures
        out@ == text@,
{
    let mut out: Vec<char> = Vec::new();
    for c in it: text.chars()
        invariant
            it.seq() == text@,
            out@ == it.seq().take(it.index() as int),
    {
        out.push(c);
    }
    out
}

/// The string made of `chars[from..to]`.
pub fn string_of(chars: &Vec<char>, from: usize, to: usize) -> (out: String)
    requires
        from <= to <= chars.len(),
    ensures
        out@ == chars@.subrange(from as int, to as int),
{
    let mut out = String::new();
    let mut i: usize = from;
    while i < to
        invariant
            from <= i <= to <= chars.len(),
            out@ == chars@.subrange(from as int, i as int),
        decreases to - i,
    {
        out.push(chars[i]);
        i += 1;
    }
    out
}

/// The characters of an optional string.
pub open spec fn text_view(text: Option<String>) -> Option<Seq<char>> {
    match text {
        Some(t) => Some(t@),
        None => None,
    }
}

/// The views of a list of character vectors.
pub open spec fn views(pieces: Seq<Vec<char>>) -> Seq<Seq<char>> {
    pieces.map_values(|piece: Vec<char>| piece@)
}

/// A copy of the first `len` characters of `chars`.
pub fn prefix_of(chars: &Vec<char>, len: usize) -> (out: Vec<char>)
    requires
        len <= chars.len(),
    ensures
        out@ == chars@.take(len as int),
{
    let mut out: Vec<char> = Vec::new();
    let mut i: usize = 0;
    while i < len
        invariant
            i <= len <= chars.len(),
            out@ == chars@.take(i as int),
        decreases len - i,
    {
        out.push(chars[i]);
        i += 1;
    }
    out
}

/// Position of the first `sep` in `s`, or the length of `s` where it has
/// none.
pub open spec fn first_index(s: Seq<char>, sep: char) -> nat
    decreases s.len(),
{
    if s.len() == 0 {
        0
    } else if s[0] == sep {
        0
    } else {
        1 + first_index(s.skip(1), sep)
    }
}

/// The pieces of `s` between occurrences of `sep`. There is always at
/// least one piece; a separator at the end leaves an empty last piece.
pub open spec fn split(s: Seq<char>, sep: char) -> Seq<Seq<char>>
    decreases s.len(),
{
    let n = first_index(s, sep) as int;
    if n >= s.len() {
        seq![s]
    } else {
        seq![s.take(n)] + split(s.skip(n + 1), sep)
    }
}

/// `first_index` is the position `k` before which no separator stands and
/// at which one does, or the end.
pub proof fn lemma_first_index(s: Seq<char>, sep: char, k: int)
    requires
        0 <= k <= s.len(),
        forall|j: int| 0 <= j < k ==> s[j] != sep,
        k < s.len() ==> s[k] == sep,
    ensures
        first_index(s, sep) == k,
    decreases k,
{
    if k > 0 {
        lemma_first_index(s.skip(1), sep, k - 1);
    }
}

/// Splits `s` at every `sep`.
pub fn split_chars(s: &Vec<char>, sep: char) -> (out: Vec<Vec<char>>)
    ensures
        views(out@) == split(s@, sep),
        out.len() >= 1,
{
    let mut out: Vec<Vec<char>> = Vec::new();
    let mut cur: Vec<char> = Vec::new();
    let ghost mut start: int = 0;
    let mut i: usize = 0;
    proof {
        assert(s@.skip(0) =~= s@);
        assert(views(out@) + split(s@, sep) =~= split(s@, sep));
    }
    while i < s.len()
        invariant
            0 <= start <= i <= s.len(),
            cur@ == s@.subrange(start, i as int),
            forall|j: int| start <= j < i ==> s@[j] != sep,
            views(out@) + split(s@.skip(start), sep) == split(s@, sep),
        decreases s.len() - i,
    {
        let c = s[i];
        if c == sep {
            proof {
                let rest = s@.skip(start);
                lemma_first_index(rest, sep, i - start);
                assert(rest.take(i - start) =~= s@.subrange(start, i as int));
                assert(rest.skip(i - start + 1) =~= s@.skip(i + 1));
                assert(views(out@.push(cur)) =~= views(out@) + seq![cur@]);
                assert(views(out@) + (seq![cur@] + split(s@.skip(i + 1), sep)) =~= (views(out@)
                    + seq![cur@]) + split(s@.skip(i + 1), sep));
                start = i + 1;
            }
            out.push(cur);
            cur = Vec::new();
        } else {
            cur.push(c);
        }
        i += 1;
        assert(cur@ =~= s@.subrange(start, i as int));
    }
    proof {
        let rest = s@.skip(start);
        lemma_first_index(rest, sep, s@.len() - start);
        assert(rest =~= cur@);
        assert(views(out@.push(cur)) =~= views(out@) + seq![cur@]);
    }
    out.push(cur);
    out
}

/// `s` without a carriage return at its end.
pub open spec fn strip_cr(s: Seq<char>) -> Seq<char> {
    if s.len() > 0 && s.last() == '\r' {
        s.drop_last()
    } else {
        s
    }
}

/// The lines of `s`. A line ends at a line feed, or at a carriage return
/// directly followed by one; the terminator is not part of the line. The
/// last line needs no terminator, and a carriage return at its end stays.
pub open spec fn lines_of(s: Seq<char>) -> Seq<Seq<char>> {
    let pieces = split(s, '\n');
    let count = if pieces.last().len() == 0 {
        pieces.len() - 1
    } else {
        pieces.len() as int
    };
    Seq::new(
        count as nat,
        |i: int|
            if i + 1 < pieces.len() {
                strip_cr(pieces[i])
            } else {
                pieces[i]
            },
    )
}

/// Splits `s` into its lines.
pub fn lines(s: &Vec<char>) -> (out: Vec<Vec<char>>)
    ensures
        views(out@) == lines_of(s@),
{
    let pieces = split_chars(s, '\n');
    let n: usize = pieces.len();
    let count: usize = if pieces[n - 1].len() == 0 {
        n - 1
    } else {
        n
    };
    assert(views(pieces@).last() == pieces@[n - 1]@);
    let mut out: Vec<Vec<char>> = Vec::new();
    let mut i: usize = 0;
    while i < count
        invariant
            i <= count <= n,
            n == pieces.len(),
            views(pieces@) == split(s@, '\n'),
            lines_of(s@).len() == count,
            out.len() == i,
            forall|j: int| 0 <= j < i ==> (#[trigger] out@[j])@ == lines_of(s@)[j],
        decreases count - i,
    {
        let piece = &pieces[i];
        let mut end: usize = piece.len();
        if i + 1 < n && end > 0 && piece[end - 1] == '\r' {
            end -= 1;
        }
        let line = prefix_of(piece, end);
        proof {
            assert(views(pieces@)[i as int] == piece@);
            assert(piece@.take(piece@.len() as int) =~= piece@);
            assert(line@ == lines_of(s@)[i as int]);
        }
        out.push(line);
        i += 1;
    }
    assert(views(out@) =~= lines_of(s@));
    out
}

/// The fields of each line of `s`: every line split at `sep`.
pub open spec fn rows_of(s: Seq<char>, sep: char) -> Seq<Seq<Seq<char>>> {
    let all = lines_of(s);
    Seq::new(all.len(), |i: int| split(all[i], sep))
}

/// Reads `text` as a table: one row for each line, one field for each
/// piece between separators.
pub fn read_rows(text: &str, sep: char) -> (out: Vec<Vec<Vec<char>>>)
    ensures
        out.len() == rows_of(text@, sep).len(),
        forall|r: int|
            0 <= r < out.len() ==> views((#[trigger] out@[r])@) == rows_of(text@, sep)[r],
        forall|r: int| 0 <= r < out.len() ==> (#[trigger] out@[r]).len() >= 1,
{
    let chars = chars_of(text);
    let all = lines(&chars);
    let mut out: Vec<Vec<Vec<char>>> = Vec::new();
    let mut i: usize = 0;
    while i < all.len()
        invariant
            i <= all.len(),
            chars@ == text@,
            views(all@) == lines_of(text@),
            out.len() == i,
            forall|r: int| 0 <= r < i ==> views((#[trigger] out@[r])@) == rows_of(text@, sep)[r],
            forall|r: int| 0 <= r < i ==> (#[trigger] out@[r]).len() >= 1,
        decreases all.len() - i,
    {
        let fields = split_chars(&all[i], sep);
        assert(views(all@)[i as int] == all@[i as int]@);
        out.push(fields);
        i += 1;
    }
    assert(views(all@).len() == all.len());
    out
}

/// Whether the characters of `a` are those of `b`.
pub fn same_chars(a: &Vec<char>, b: &Vec<char>) -> (same: bool)
    ensures
        same == (a@ == b@),
{
    if a.len() != b.len() {
        return false;
    }
    let mut i: usize = 0;
    while i < a.len()
        invariant
            i <= a.len(),
            a.len() == b.len(),
            forall|j: int| 0 <= j < i ==> a@[j] == b@[j],
        decreases a.len() - i,
    {
        if a[i] != b[i] {
            return false;
        }
        i += 1;
    }
    assert(a@ =~= b@);
    true
}

/// Whether the characters of `a` spell `word`.
pub fn spells(a: &Vec<char>, word: &str) -> (same: bool)
    ensures
        same == (a@ == word@),
{
    let other = chars_of(word);
    same_chars(a, &other)
}

/// The string made of all of `chars`.
pub fn string_from(chars: &Vec<char>) -> (out: String)
    ensures
        out@ == chars@,
{
    let out = string_of(chars, 0, chars.len());
    assert(chars@.subrange(0, chars@.len() as int) =~= chars@);
    out
}

/// Whether `c` is white space: one of the characters that Unicode gives
/// the property White_Space.
pub open spec fn is_space(c: char) -> bool {
    let code = c as u32;
    ||| 0x09 <= code <= 0x0d
    ||| code == 0x20
    ||| code == 0x85
    ||| code == 0xa0
    ||| code == 0x1680
    ||| 0x2000 <= code <= 0x200a
    ||| code == 0x2028
    ||| code == 0x2029
    ||| code == 0x202f
    ||| code == 0x205f
    ||| code == 0x3000
}

/// `s` without the white space at its start.
pub open spec fn trim_start(s: Seq<char>) -> Seq<char>
    decreases s.len(),
{
    if s.len() > 0 && is_space(s[0]) {
        trim_start(s.skip(1))
    } else {
        s
    }
}

/// `s` without the white space at its end.
pub open spec fn trim_end(s: Seq<char>) -> Seq<char>
    decreases s.len(),
{
    if s.len() > 0 && is_space(s.last()) {
        trim_end(s.drop_last())
    } else {
        s
    }
}

/// `s` without the white space at its start and at its end.
pub open spec fn trimmed(s: Seq<char>) -> Seq<char> {
    trim_end(trim_start(s))
}

/// Whether `c` is white space.
pub fn is_whitespace(c: char) -> (space: bool)
    ensures
        space == is_space(c),
{
    let code: u32 = c as u32;
    (0x09 <= code && code <= 0x0d) || code == 0x20 || code == 0x85 || code == 0xa0 || code
        == 0x1680 || (0x2000 <= code && code <= 0x200a) || code == 0x2028 || code == 0x2029
        || code == 0x202f || code == 0x205f || code == 0x3000
}

/// The characters of `s` without the white space around them.
pub fn trim(s: &Vec<char>) -> (out: Vec<char>)
    ensures
        out@ == trimmed(s@),
{
    let n: usize = s.len();
    let mut from: usize = 0;
    assert(s@.skip(0) =~= s@);
    while from < n && is_whitespace(s[from])
        invariant
            from <= n,
            n == s.len(),
            trim_start(s@) == trim_start(s@.skip(from as int)),
        decreases n - from,
    {
        assert(s@.skip(from as int).skip(1) =~= s@.skip(from + 1));
        from += 1;
    }
    let mut to: usize = n;
    assert(s@.subrange(from as int, n as int) =~= s@.skip(from as int));
    while to > from && is_whitespace(s[to - 1])
        invariant
            from <= to <= n,
            n == s.len(),
            trim_start(s@) == s@.skip(from as int),
            trimmed(s@) == trim_end(s@.subrange(from as int, to as int)),
        decreases to,
    {
        assert(s@.subrange(from as int, to as int).drop_last() =~= s@.subrange(
            from as int,
            to - 1,
        ));
        to -= 1;
    }
    let mut out: Vec<char> = Vec::new();
    let mut i: usize = from;
    while i < to
        invariant
            from <= i <= to <= n,
            n == s.len(),
            out@ == s@.subrange(from as int, i as int),
        decreases to - i,
    {
        out.push(s[i]);
        i += 1;
    }
    out
}

/// Whether `c` is a decimal digit.
pub open spec fn is_digit(c: char) -> bool {
    '0' <= c <= '9'
}

/// The number that a sequence of decimal digits writes.
pub open spec fn digits_value(s: Seq<char>) -> int
    decreases s.len(),
{
    if s.len() == 0 {
        0
    } else {
        10 * digits_value(s.drop_last()) + (s.last() as int - '0' as int)
    }
}

/// Whether every character of `s` is a decimal digit.
pub open spec fn all_digits(s: Seq<char>) -> bool {
    forall|i: int| 0 <= i < s.len() ==> is_digit(#[trigger] s[i])
}

/// `s` without a sign in front.
pub open spec fn unsigned_part(s: Seq<char>) -> Seq<char> {
    if s.len() > 0 && (s[0] == '-' || s[0] == '+') {
        s.skip(1)
    } else {
        s
    }
}

/// The signed number that `s` writes: an optional `+` or `-`, then one or
/// more decimal digits and nothing else. `None` where `s` has another
/// shape or the number does not fit in 32 bits.
pub open spec fn parse_i32(s: Seq<char>) -> Option<int> {
    let digits = unsigned_part(s);
    let magnitude = digits_value(digits);
    let value = if s.len() > 0 && s[0] == '-' {
        -magnitude
    } else {
        magnitude
    };
    if digits.len() == 0 || !all_digits(digits) {
        None
    } else if value < -0x8000_0000 || value > 0x7fff_ffff {
        None
    } else {
        Some(value)
    }
}

/// A digit string never writes a negative number, and a longer one never
/// writes less than its prefix.
pub proof fn lemma_digits_value_grows(s: Seq<char>)
    requires
        s.len() > 0,
        all_digits(s),
    ensures
        0 <= digits_value(s.drop_last()) <= digits_value(s),
        digits_value(s) == 10 * digits_value(s.drop_last()) + (s.last() as int - '0' as int),
    decreases s.len(),
{
    let head = s.drop_last();
    if head.len() > 0 {
        lemma_digits_value_grows(head);
    }
}

/// Reads a signed decimal number of 32 bits.
pub fn parse_signed(s: &Vec<char>) -> (out: Option<i32>)
    ensures
        out is Some <==> parse_i32(s@) is Some,
        out is Some ==> out->0 as int == parse_i32(s@)->0,
{
    let n: usize = s.len();
    if n == 0 {
        return None;
    }
    let negative: bool = s[0] == '-';
    let first: usize = if s[0] == '-' || s[0] == '+' {
        1
    } else {
        0
    };
    if first == n {
        return None;
    }
    let ghost digits = s@.skip(first as int);
    assert(s@.skip(0) =~= s@);
    let mut acc: i64 = 0;
    let mut overflow: bool = false;
    let mut i: usize = first;
    while i < n
        invariant
            first <= i <= n,
            n == s.len(),
            digits == s@.skip(first as int),
            digits == unsigned_part(s@),
            all_digits(digits.take(i - first)),
            0 <= acc <= 0x8000_0000,
            !overflow ==> acc == digits_value(digits.take(i - first)),
            overflow ==> digits_value(digits.take(i - first)) > 0x8000_0000,
        decreases n - i,
    {
        let c = s[i];
        if !(c >= '0' && c <= '9') {
            assert(!is_digit(digits[i - first]));
            return None;
        }
        let d: i64 = (c as u32 - '0' as u32) as i64;
        proof {
            let next = digits.take(i - first + 1);
            assert(next.drop_last() =~= digits.take(i - first));
            assert(next.last() == c);
            lemma_digits_value_grows(next);
        }
        if !overflow {
            acc = acc * 10 + d;
            if acc > 0x8000_0000 {
                overflow = true;
                acc = 0;
            }
        }
        i += 1;
    }
    assert(digits.take(n - first) =~= digits);
    if overflow {
        return None;
    }
    let value: i64 = if negative {
        -acc
    } else {
        acc
    };
    if value < -0x8000_0000 || value > 0x7fff_ffff {
        None
    } else {
        Some(value as i32)
    }
}

/// The decimal digits of `n`, without leading zeros.
pub open spec fn decimal_text(n: nat) -> Seq<char>
    decreases n,
{
    if n < 10 {
        seq!["0123456789"@[n as int]]
    } else {
        decimal_text(n / 10).push("0123456789"@[(n % 10) as int])
    }
}

/// The decimal digits of `v`, with a minus sign in front where it is
/// negative.
pub open spec fn signed_text(v: int) -> Seq<char> {
    if v < 0 {
        seq!['-'] + decimal_text((-v) as nat)
    } else {
        decimal_text(v as nat)
    }
}

/// Appends the decimal digits of `n` to `out`.
pub fn push_decimal(out: &mut String, n: u64)
    ensures
        final(out)@ == old(out)@ + decimal_text(n as nat),
    decreases n,
{
    let digits = chars_of("0123456789");
    proof {
        reveal_strlit("0123456789");
    }
    if n >= 10 {
        push_decimal(out, n / 10);
    }
    let ghost before = out@;
    out.push(digits[(n % 10) as usize]);
    proof {
        if n >= 10 {
            assert(before.push(digits@[(n % 10) as int]) =~= old(out)@ + decimal_text(n as nat));
        } else {
            assert(before.push(digits@[n as int]) =~= old(out)@ + decimal_text(n as nat));
        }
    }
}

/// Appends the decimal digits of `v`, with its sign, to `out`.
pub fn push_signed(out: &mut String, v: i32)
    ensures
        final(out)@ == old(out)@ + signed_text(v as int),
{
    if v < 0 {
        out.push('-');
        let magnitude: i64 = -(v as i64);
        push_decimal(out, magnitude as u64);
        assert(out@ =~= old(out)@ + signed_text(v as int));
    } else {
        push_decimal(out, v as u64);
    }
}

} // verus!
