use vstd::prelude::*;

verus! {

/// Whether two strings hold the same characters.
pub fn text_eq(a: &str, b: &str) -> (same: bool)
    ensures
        same == (a@ == b@),
{
    let n: usize = a.unicode_len();
    if b.unicode_len() != n {
        return false;
    }
    let mut i: usize = 0;
    while i < n
        invariant
            n == a@.len(),
            n == b@.len(),
            i <= n,
            forall|k: int| 0 <= k < i ==> a@[k] == b@[k],
        decreases n - i,
    {
        if a.get_char(i) != b.get_char(i) {
            return false;
        }
        i += 1;
    }
    assert(a@ =~= b@);
    true
}

/// Whether `text` begins with `prefix`.
pub fn starts_with(text: &str, prefix: &str) -> (starts: bool)
    ensures
        starts == prefix@.is_prefix_of(text@),
{
    let n: usize = prefix.unicode_len();
    if text.unicode_len() < n {
        return false;
    }
    let mut i: usize = 0;
    while i < n
        invariant
            n == prefix@.len(),
            n <= text@.len(),
            i <= n,
            forall|k: int| 0 <= k < i ==> text@[k] == prefix@[k],
        decreases n - i,
    {
        if text.get_char(i) != prefix.get_char(i) {
            assert(text@.subrange(0, n as int)[i as int] != prefix@[i as int]);
            return false;
        }
        i += 1;
    }
    assert(prefix@ =~= text@.subrange(0, n as int));
    true
}

/// Whether `c` is one of the ten decimal digits.
pub open spec fn is_digit(c: char) -> bool {
    '0' <= c <= '9'
}

/// The number that a decimal digit stands for.
pub open spec fn digit_value(c: char) -> nat {
    (c as u32 - '0' as u32) as nat
}

/// Whether `s` holds decimal digits and nothing else.
pub open spec fn all_digits(s: Seq<char>) -> bool {
    forall|i: int| 0 <= i < s.len() ==> is_digit(#[trigger] s[i])
}

/// The number that a run of decimal digits writes, the most significant
/// digit first.
pub open spec fn decimal_value(s: Seq<char>) -> nat
    decreases s.len(),
{
    if s.len() == 0 {
        0
    } else {
        decimal_value(s.drop_last()) * 10 + digit_value(s.last())
    }
}

/// The digits of a number that may be written with a plus sign in front.
pub open spec fn unsigned_digits(s: Seq<char>) -> Seq<char> {
    if s.len() > 0 && s[0] == '+' {
        s.drop_first()
    } else {
        s
    }
}

/// The unsigned 64-bit number that `s` writes in decimal: one plus sign may
/// come first, then at least one digit and nothing but digits, and the
/// number has to fit.
pub open spec fn decimal_u64(s: Seq<char>) -> Option<u64> {
    let digits = unsigned_digits(s);
    if digits.len() > 0 && all_digits(digits) && decimal_value(digits) <= u64::MAX {
        Some(decimal_value(digits) as u64)
    } else {
        None
    }
}

/// A run of digits writes a number no smaller than any of its beginnings.
pub proof fn lemma_decimal_value_grows(s: Seq<char>, n: int)
    requires
        0 <= n <= s.len(),
    ensures
        decimal_value(s.subrange(0, n)) <= decimal_value(s),
    decreases s.len(),
{
    if n == s.len() {
        assert(s.subrange(0, n) =~= s);
    } else {
        lemma_decimal_value_grows(s.drop_last(), n);
        assert(s.drop_last().subrange(0, n) =~= s.subrange(0, n));
    }
}

/// Reads an unsigned 64-bit number written in decimal.
pub fn parse_u64(text: &str) -> (value: Option<u64>)
    ensures
        value == decimal_u64(text@),
{
    let n: usize = text.unicode_len();
    let start: usize = if n > 0 && text.get_char(0) == '+' {
        1
    } else {
        0
    };
    let ghost digits = unsigned_digits(text@);
    assert(digits =~= text@.subrange(start as int, n as int));
    if start == n {
        return None;
    }
    let mut total: u64 = 0;
    let mut i: usize = start;
    while i < n
        invariant
            n == text@.len(),
            start <= i <= n,
            digits == unsigned_digits(text@),
            digits == text@.subrange(start as int, n as int),
            all_digits(digits.subrange(0, i - start)),
            total == decimal_value(digits.subrange(0, i - start)),
        decreases n - i,
    {
        let c = text.get_char(i);
        let ghost seen = digits.subrange(0, i - start + 1);
        assert(seen.drop_last() =~= digits.subrange(0, i - start));
        assert(seen.last() == c);
        if c < '0' || c > '9' {
            assert(!is_digit(digits[i - start]));
            return None;
        }
        let digit: u64 = (c as u32 - '0' as u32) as u64;
        assert(decimal_value(seen) == total * 10 + digit);
        if total > (u64::MAX - digit) / 10 {
            proof {
                lemma_decimal_value_grows(digits, i - start + 1);
            }
            return None;
        }
        total = total * 10 + digit;
        assert(all_digits(seen)) by {
            assert forall|k: int| 0 <= k < seen.len() implies is_digit(#[trigger] seen[k]) by {
                if k < seen.len() - 1 {
                    assert(seen[k] == digits.subrange(0, i - start)[k]);
                }
            }
        }
        i += 1;
    }
    assert(digits.subrange(0, n - start) =~= digits);
    Some(total)
}

/// Where the first blank of `s` stands, or the length of `s` if it holds none.
pub open spec fn first_blank(s: Seq<char>) -> int
    decreases s.len(),
{
    if s.len() == 0 || s[0] == ' ' {
        0
    } else {
        1 + first_blank(s.drop_first())
    }
}

/// The pieces of `s` between its blanks, in order. Each blank parts two
/// pieces, so two blanks in a row hold an empty piece between them, and a
/// text without a blank is one piece.
pub open spec fn split_at_blanks(s: Seq<char>) -> Seq<Seq<char>>
    decreases s.len(),
{
    let end = first_blank(s);
    if 0 <= end < s.len() {
        seq![s.subrange(0, end)] + split_at_blanks(s.subrange(end + 1, s.len() as int))
    } else {
        seq![s]
    }
}

/// The texts of a list of string slices.
pub open spec fn texts(pieces: Seq<&str>) -> Seq<Seq<char>> {
    Seq::new(pieces.len(), |i: int| pieces[i]@)
}

/// The first blank is the first place that holds a blank.
pub proof fn lemma_first_blank(s: Seq<char>, k: int)
    requires
        0 <= k <= s.len(),
        forall|i: int| 0 <= i < k ==> s[i] != ' ',
        k < s.len() ==> s[k] == ' ',
    ensures
        first_blank(s) == k,
    decreases k,
{
    if k > 0 {
        lemma_first_blank(s.drop_first(), k - 1);
    }
}

/// Parts a line at its blanks.
pub fn split_blanks<'a>(line: &'a str) -> (pieces: Vec<&'a str>)
    ensures
        texts(pieces@) == split_at_blanks(line@),
        pieces@.len() >= 1,
{
    let n: usize = line.unicode_len();
    let mut pieces: Vec<&'a str> = Vec::new();
    let mut start: usize = 0;
    let mut i: usize = 0;
    proof {
        assert(line@.subrange(0, n as int) =~= line@);
        assert(texts(pieces@) + split_at_blanks(line@) =~= split_at_blanks(line@));
    }
    while i < n
        invariant
            n == line@.len(),
            start <= i <= n,
            forall|k: int| start <= k < i ==> line@[k] != ' ',
            texts(pieces@) + split_at_blanks(line@.subrange(start as int, n as int))
                == split_at_blanks(line@),
        decreases n - i,
    {
        if line.get_char(i) == ' ' {
            let piece = line.substring_char(start, i);
            let ghost rest = line@.subrange(start as int, n as int);
            proof {
                lemma_first_blank(rest, i - start);
                assert(rest.subrange(0, i - start) =~= piece@);
                assert(rest.subrange(i - start + 1, rest.len() as int) =~= line@.subrange(
                    i + 1,
                    n as int,
                ));
                assert(texts(pieces@.push(piece)) =~= texts(pieces@) + seq![piece@]);
            }
            pieces.push(piece);
            start = i + 1;
        }
        i += 1;
    }
    let piece = line.substring_char(start, n);
    proof {
        lemma_first_blank(piece@, n - start);
        assert(texts(pieces@.push(piece)) =~= texts(pieces@) + seq![piece@]);
    }
    pieces.push(piece);
    pieces
}

/// The first piece of a line is the beginning of the line.
pub proof fn lemma_first_piece(line: Seq<char>)
    ensures
        split_at_blanks(line).len() >= 1,
        split_at_blanks(line)[0].is_prefix_of(line),
{
    lemma_first_blank_in_range(line);
    let end = first_blank(line);
    if 0 <= end < line.len() {
        assert(split_at_blanks(line)[0] == line.subrange(0, end));
    } else {
        assert(line.subrange(0, line.len() as int) =~= line);
    }
}

/// The first blank stands within the line or at its end.
pub proof fn lemma_first_blank_in_range(line: Seq<char>)
    ensures
        0 <= first_blank(line) <= line.len(),
    decreases line.len(),
{
    if line.len() > 0 && line[0] != ' ' {
        lemma_first_blank_in_range(line.drop_first());
    }
}

/// No place before the first blank holds a blank.
pub proof fn lemma_no_blank_before_first(line: Seq<char>, i: int)
    requires
        0 <= i < first_blank(line),
    ensures
        i < line.len(),
        line[i] != ' ',
    decreases line.len(),
{
    if i > 0 {
        lemma_no_blank_before_first(line.drop_first(), i - 1);
    }
}

/// No piece of a line holds a blank.
pub proof fn lemma_pieces_hold_no_blank(line: Seq<char>, k: int)
    requires
        0 <= k < split_at_blanks(line).len(),
    ensures
        !split_at_blanks(line)[k].contains(' '),
    decreases line.len(),
{
    lemma_first_blank_in_range(line);
    let end = first_blank(line);
    let piece = split_at_blanks(line)[k];
    if k == 0 {
        assert(piece.is_prefix_of(line)) by {
            lemma_first_piece(line);
        }
        assert forall|i: int| 0 <= i < piece.len() implies piece[i] != ' ' by {
            lemma_no_blank_before_first(line, i);
            assert(piece[i] == line.subrange(0, piece.len() as int)[i]);
        }
    } else {
        let rest = line.subrange(end + 1, line.len() as int);
        assert(piece == split_at_blanks(rest)[k - 1]);
        lemma_pieces_hold_no_blank(rest, k - 1);
    }
}

} // verus!
