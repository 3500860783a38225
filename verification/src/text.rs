//! Text helpers shared by the library: trimming, line splitting, decimal
//! formatting and parsing, all stated over `Seq<char>`.
use vstd::prelude::*;

verus! {

// ---------------------------------------------------------------------------
// Conversions between strings and character vectors (std).
// ---------------------------------------------------------------------------

/// `str::chars` collected into a vector: the characters of `s`, in order.
#[verifier::external_body]
pub fn chars_of(s: &str) -> (r: Vec<char>)
    ensures
        r@ == s@,
{
    s.chars().collect()
}

/// `String: FromIterator<char>`: the string made of the given characters.
#[verifier::external_body]
pub fn string_of(cs: &[char]) -> (r: String)
    ensures
        r@ == cs@,
{
    cs.iter().collect()
}

/// What `str::to_lowercase` returns for a string (Unicode lower-case mapping).
pub uninterp spec fn lowercased(s: Seq<char>) -> Seq<char>;

/// `str::to_lowercase`: the Unicode lower-case form of `s`.
#[verifier::external_body]
pub fn to_lowercase(s: &str) -> (r: String)
    ensures
        r@ == lowercased(s@),
{
    s.to_lowercase()
}

/// A new string holding `a` followed by `b`.
pub fn concat2(a: &str, b: &str) -> (r: String)
    ensures
        r@ == a@ + b@,
{
    let mut s = String::from_str(a);
    s.append(b);
    s
}

/// A new string holding `a`, `b` and `c` in that order.
pub fn concat3(a: &str, b: &str, c: &str) -> (r: String)
    ensures
        r@ == a@ + b@ + c@,
{
    let mut s = String::from_str(a);
    s.append(b);
    s.append(c);
    s
}

/// Whether two strings hold the same characters.
pub fn same_text(a: &str, b: &str) -> (r: bool)
    ensures
        r == (a@ == b@),
{
    let x = chars_of(a);
    let y = chars_of(b);
    if x.len() != y.len() {
        return false;
    }
    let mut i: usize = 0;
    while i < x.len()
        invariant
            x@ == a@,
            y@ == b@,
            x.len() == y.len(),
            i <= x.len(),
            forall|k: int| 0 <= k < i ==> x@[k] == y@[k],
        decreases x.len() - i,
    {
        if x[i] != y[i] {
            return false;
        }
        i += 1;
    }
    assert(x@ =~= y@);
    true
}

// ---------------------------------------------------------------------------
// White space and trimming.
// ---------------------------------------------------------------------------

/// The Unicode `White_Space` property, which `char::is_whitespace` tests.
pub open spec fn is_space(c: char) -> bool {
    ||| ('\u{9}' <= c && c <= '\u{d}')
    ||| c == ' '
    ||| c == '\u{85}'
    ||| c == '\u{a0}'
    ||| c == '\u{1680}'
    ||| ('\u{2000}' <= c && c <= '\u{200a}')
    ||| c == '\u{2028}'
    ||| c == '\u{2029}'
    ||| c == '\u{202f}'
    ||| c == '\u{205f}'
    ||| c == '\u{3000}'
}

pub fn is_space_char(c: char) -> (r: bool)
    ensures
        r == is_space(c),
{
    ('\u{9}' <= c && c <= '\u{d}') || c == ' ' || c == '\u{85}' || c == '\u{a0}'
        || c == '\u{1680}' || ('\u{2000}' <= c && c <= '\u{200a}') || c == '\u{2028}'
        || c == '\u{2029}' || c == '\u{202f}' || c == '\u{205f}' || c == '\u{3000}'
}

/// The index of the first character at or after `i` that is not white space
/// (`s.len()` when there is none).
pub open spec fn skip_space(s: Seq<char>, i: int) -> int
    decreases s.len() - i,
{
    if i < 0 || i >= s.len() {
        s.len() as int
    } else if is_space(s[i]) {
        skip_space(s, i + 1)
    } else {
        i
    }
}

/// The end of `s.take(j)` once trailing white space is removed.
pub open spec fn skip_space_back(s: Seq<char>, j: int) -> int
    decreases j,
{
    if j <= 0 || j > s.len() {
        0
    } else if is_space(s[j - 1]) {
        skip_space_back(s, j - 1)
    } else {
        j
    }
}

/// `s` without leading and trailing white space, as `str::trim` gives it.
pub open spec fn trimmed(s: Seq<char>) -> Seq<char> {
    let a = skip_space(s, 0);
    if a >= s.len() {
        Seq::empty()
    } else {
        s.subrange(a, skip_space_back(s, s.len() as int))
    }
}

proof fn lemma_skip_space_bounds(s: Seq<char>, i: int)
    requires
        0 <= i <= s.len(),
    ensures
        i <= skip_space(s, i) <= s.len(),
        skip_space(s, i) < s.len() ==> !is_space(s[skip_space(s, i)]),
    decreases s.len() - i,
{
    if i < s.len() && is_space(s[i]) {
        lemma_skip_space_bounds(s, i + 1);
    }
}

/// When some character of `s` is not white space, the last such character
/// lies at or after the first one.
proof fn lemma_trim_ends_ordered(s: Seq<char>)
    requires
        skip_space(s, 0) < s.len(),
    ensures
        skip_space(s, 0) < skip_space_back(s, s.len() as int),
{
    lemma_skip_space_bounds(s, 0);
    lemma_back_passes(s, s.len() as int, skip_space(s, 0));
}

proof fn lemma_back_passes(s: Seq<char>, j: int, k: int)
    requires
        0 <= k < j <= s.len(),
        !is_space(s[k]),
    ensures
        k < skip_space_back(s, j),
    decreases j,
{
    if is_space(s[j - 1]) {
        lemma_back_passes(s, j - 1, k);
    }
}

/// `str::trim` on a character vector: the characters of `cs` without leading
/// and trailing white space.
pub fn trim_chars(cs: &Vec<char>) -> (r: Vec<char>)
    ensures
        r@ == trimmed(cs@),
{
    let n = cs.len();
    let mut a: usize = 0;
    while a < n && is_space_char(cs[a])
        invariant
            n == cs@.len(),
            a <= n,
            skip_space(cs@, 0) == skip_space(cs@, a as int),
        decreases n - a,
    {
        a += 1;
    }
    let mut r: Vec<char> = Vec::new();
    if a >= n {
        assert(r@ =~= trimmed(cs@));
        return r;
    }
    let mut b: usize = n;
    while b > 0 && is_space_char(cs[b - 1])
        invariant
            n == cs@.len(),
            b <= n,
            skip_space_back(cs@, n as int) == skip_space_back(cs@, b as int),
        decreases b,
    {
        b -= 1;
    }
    proof {
        lemma_trim_ends_ordered(cs@);
    }
    let mut i: usize = a;
    while i < b
        invariant
            a <= i <= b <= n,
            n == cs@.len(),
            r@ == cs@.subrange(a as int, i as int),
        decreases b - i,
    {
        r.push(cs[i]);
        i += 1;
        assert(r@ =~= cs@.subrange(a as int, i as int));
    }
    r
}

/// `str::trim` followed by `to_string`.
pub fn trim(s: &str) -> (r: String)
    ensures
        r@ == trimmed(s@),
{
    let cs = chars_of(s);
    let t = trim_chars(&cs);
    string_of(t.as_slice())
}

/// Whether `s` is empty once trimmed.
pub fn is_blank(s: &str) -> (r: bool)
    ensures
        r == (trimmed(s@).len() == 0),
{
    let t = trim(s);
    t.as_str().unicode_len() == 0
}

// ---------------------------------------------------------------------------
// Lines, as `str::lines` yields them.
// ---------------------------------------------------------------------------

/// The index of the first `'\n'` at or after `i` (`s.len()` when there is none).
pub open spec fn newline_from(s: Seq<char>, i: int) -> int
    decreases s.len() - i,
{
    if i < 0 || i >= s.len() {
        s.len() as int
    } else if s[i] == '\n' {
        i
    } else {
        newline_from(s, i + 1)
    }
}

/// One line ending at a newline, without the newline and without one
/// carriage return just before it.
pub open spec fn strip_cr(line: Seq<char>) -> Seq<char> {
    if line.len() > 0 && line.last() == '\r' {
        line.drop_last()
    } else {
        line
    }
}

/// The lines of `s.skip(i)`, as `str::lines` yields them: pieces separated by
/// `'\n'`, a piece that ends at a `'\n'` losing one `'\r'` before it, and no
/// empty piece after a final `'\n'`.
pub open spec fn lines_from(s: Seq<char>, i: int) -> Seq<Seq<char>>
    decreases s.len() - i,
{
    if i < 0 || i >= s.len() {
        Seq::empty()
    } else {
        let k = newline_from(s, i);
        proof {
            lemma_newline_from_bounds(s, i);
        }
        if k >= s.len() {
            seq![s.subrange(i, s.len() as int)]
        } else {
            seq![strip_cr(s.subrange(i, k))] + lines_from(s, k + 1)
        }
    }
}

pub open spec fn lines(s: Seq<char>) -> Seq<Seq<char>> {
    lines_from(s, 0)
}

pub proof fn lemma_newline_from_bounds(s: Seq<char>, i: int)
    requires
        0 <= i <= s.len(),
    ensures
        i <= newline_from(s, i) <= s.len(),
        newline_from(s, i) < s.len() ==> s[newline_from(s, i)] == '\n',
    decreases s.len() - i,
{
    if i < s.len() && s[i] != '\n' {
        lemma_newline_from_bounds(s, i + 1);
    }
}

/// The copy of `cs[from..to]`.
pub fn slice_chars(cs: &Vec<char>, from: usize, to: usize) -> (r: Vec<char>)
    requires
        from <= to <= cs.len(),
    ensures
        r@ == cs@.subrange(from as int, to as int),
{
    let mut r: Vec<char> = Vec::new();
    let mut i = from;
    while i < to
        invariant
            from <= i <= to <= cs.len(),
            r@ == cs@.subrange(from as int, i as int),
        decreases to - i,
    {
        r.push(cs[i]);
        i += 1;
        assert(r@ =~= cs@.subrange(from as int, i as int));
    }
    r
}

/// `str::lines` collected: the lines of `cs`, each as a character vector.
pub fn split_lines(cs: &Vec<char>) -> (r: Vec<Vec<char>>)
    ensures
        r@.len() == lines(cs@).len(),
        forall|k: int| 0 <= k < r@.len() ==> #[trigger] r@[k]@ == lines(cs@)[k],
{
    let n = cs.len();
    let mut out: Vec<Vec<char>> = Vec::new();
    let mut i: usize = 0;
    while i < n
        invariant
            n == cs@.len(),
            i <= n,
            forall|k: int| 0 <= k < out@.len() ==> #[trigger] out@[k]@ == lines(cs@)[k],
            out@.len() + lines_from(cs@, i as int).len() == lines(cs@).len(),
            forall|k: int|
                0 <= k < lines_from(cs@, i as int).len() ==> #[trigger] lines_from(cs@, i as int)[k]
                    == lines(cs@)[out@.len() + k],
        decreases n - i,
    {
        let mut k = i;
        while k < n && cs[k] != '\n'
            invariant
                n == cs@.len(),
                i <= k <= n,
                newline_from(cs@, i as int) == newline_from(cs@, k as int),
            decreases n - k,
        {
            k += 1;
        }
        proof {
            lemma_newline_from_bounds(cs@, k as int);
        }
        let ghost rest = lines_from(cs@, i as int);
        if k >= n {
            let piece = slice_chars(cs, i, n);
            assert(rest == seq![cs@.subrange(i as int, n as int)]);
            assert(rest[0] == lines(cs@)[out@.len() as int]);
            out.push(piece);
            i = n;
        } else {
            let mut piece = slice_chars(cs, i, k);
            if piece.len() > 0 && piece[piece.len() - 1] == '\r' {
                piece.pop();
                assert(piece@ =~= strip_cr(cs@.subrange(i as int, k as int)));
            }
            assert(rest == seq![strip_cr(cs@.subrange(i as int, k as int))] + lines_from(
                cs@,
                k + 1,
            ));
            assert(rest[0] == lines(cs@)[out@.len() as int]);
            assert forall|j: int| 0 <= j < lines_from(cs@, k + 1).len() implies #[trigger] lines_from(
                cs@,
                k + 1,
            )[j] == lines(cs@)[out@.len() + 1 + j] by {
                assert(lines_from(cs@, k + 1)[j] == rest[j + 1]);
            }
            out.push(piece);
            i = k + 1;
        }
    }
    out
}

// ---------------------------------------------------------------------------
// Decimal numbers.
// ---------------------------------------------------------------------------

/// The character of a decimal digit.
pub open spec fn digit_char(d: nat) -> char {
    if d == 0 {
        '0'
    } else if d == 1 {
        '1'
    } else if d == 2 {
        '2'
    } else if d == 3 {
        '3'
    } else if d == 4 {
        '4'
    } else if d == 5 {
        '5'
    } else if d == 6 {
        '6'
    } else if d == 7 {
        '7'
    } else if d == 8 {
        '8'
    } else {
        '9'
    }
}

/// The decimal representation of `n`, without sign or leading zeros.
pub open spec fn decimal(n: nat) -> Seq<char>
    decreases n,
{
    if n < 10 {
        seq![digit_char(n)]
    } else {
        decimal(n / 10).push(digit_char(n % 10))
    }
}

/// The decimal representation of a signed number, with `-` when negative.
pub open spec fn signed_decimal(n: int) -> Seq<char> {
    if n < 0 {
        seq!['-'] + decimal((-n) as nat)
    } else {
        decimal(n as nat)
    }
}

fn digit_to_char(d: u64) -> (c: char)
    requires
        d < 10,
    ensures
        c == digit_char(d as nat),
{
    if d == 0 {
        '0'
    } else if d == 1 {
        '1'
    } else if d == 2 {
        '2'
    } else if d == 3 {
        '3'
    } else if d == 4 {
        '4'
    } else if d == 5 {
        '5'
    } else if d == 6 {
        '6'
    } else if d == 7 {
        '7'
    } else if d == 8 {
        '8'
    } else {
        '9'
    }
}

fn decimal_chars(n: u64) -> (r: Vec<char>)
    ensures
        r@ == decimal(n as nat),
    decreases n,
{
    if n < 10 {
        let mut v: Vec<char> = Vec::new();
        v.push(digit_to_char(n));
        assert(v@ =~= decimal(n as nat));
        v
    } else {
        let mut v = decimal_chars(n / 10);
        v.push(digit_to_char(n % 10));
        v
    }
}

/// `u64::to_string`: the decimal representation of `n`.
pub fn u64_to_text(n: u64) -> (r: String)
    ensures
        r@ == decimal(n as nat),
{
    let v = decimal_chars(n);
    string_of(v.as_slice())
}

/// `usize::to_string`: the decimal representation of `n`.
pub fn usize_to_text(n: usize) -> (r: String)
    ensures
        r@ == decimal(n as nat),
{
    u64_to_text(n as u64)
}

/// `i32::to_string`: the decimal representation of `n`, with `-` when negative.
pub fn i32_to_text(n: i32) -> (r: String)
    ensures
        r@ == signed_decimal(n as int),
{
    if n < 0 {
        let m: u64 = (-(n as i64)) as u64;
        let digits = u64_to_text(m);
        let r = concat2("-", digits.as_str());
        proof {
            reveal_strlit("-");
        }
        r
    } else {
        u64_to_text(n as u64)
    }
}

/// The value of a string of decimal digits.
pub open spec fn digits_value(s: Seq<char>) -> nat
    decreases s.len(),
{
    if s.len() == 0 {
        0
    } else {
        digits_value(s.drop_last()) * 10 + digit_value(s.last())
    }
}

pub open spec fn is_digit(c: char) -> bool {
    '0' <= c && c <= '9'
}

pub open spec fn digit_value(c: char) -> nat {
    ((c as int) - ('0' as int)) as nat
}

/// The digits that `str::parse::<u64>` reads: `s` without one leading `+`.
pub open spec fn unsigned_body(s: Seq<char>) -> Seq<char> {
    if s.len() > 0 && s[0] == '+' {
        s.drop_first()
    } else {
        s
    }
}

/// What `str::parse::<u64>` gives back: the value of the digits after an
/// optional `+`, when there is at least one digit, every character is a digit
/// and the value fits in a `u64`.
pub open spec fn parsed_u64(s: Seq<char>) -> Option<u64> {
    let body = unsigned_body(s);
    if body.len() == 0 || exists|i: int| 0 <= i < body.len() && !is_digit(#[trigger] body[i]) {
        None
    } else if digits_value(body) > u64::MAX {
        None
    } else {
        Some(digits_value(body) as u64)
    }
}

proof fn lemma_digits_value_grows(s: Seq<char>, i: int)
    requires
        0 <= i <= s.len(),
    ensures
        digits_value(s.take(i)) <= digits_value(s),
    decreases s.len() - i,
{
    if i < s.len() {
        lemma_digits_value_grows(s, i + 1);
        assert(s.take(i + 1).drop_last() =~= s.take(i));
        assert(digits_value(s.take(i + 1)) == digits_value(s.take(i)) * 10 + digit_value(
            s.take(i + 1).last(),
        ));
    } else {
        assert(s.take(i) =~= s);
    }
}

/// `str::parse::<u64>`, with `None` for every input on which it fails.
pub fn parse_u64(s: &str) -> (r: Option<u64>)
    ensures
        r == parsed_u64(s@),
{
    let all = chars_of(s);
    let mut start: usize = 0;
    if all.len() > 0 && all[0] == '+' {
        start = 1;
    }
    let body = slice_chars(&all, start, all.len());
    assert(body@ =~= unsigned_body(s@));
    if body.len() == 0 {
        return None;
    }
    let mut i: usize = 0;
    while i < body.len()
        invariant
            i <= body.len(),
            body@ == unsigned_body(s@),
            forall|k: int| 0 <= k < i ==> is_digit(#[trigger] body@[k]),
        decreases body.len() - i,
    {
        if !('0' <= body[i] && body[i] <= '9') {
            assert(!is_digit(body@[i as int]));
            return None;
        }
        i += 1;
    }
    let mut value: u64 = 0;
    let mut j: usize = 0;
    while j < body.len()
        invariant
            j <= body.len(),
            forall|k: int| 0 <= k < body.len() ==> is_digit(#[trigger] body@[k]),
            value == digits_value(body@.take(j as int)),
            body@ == unsigned_body(s@),
        decreases body.len() - j,
    {
        let c = body[j];
        let d: u64 = ((c as u32) - ('0' as u32)) as u64;
        assert(body@.take(j + 1).drop_last() =~= body@.take(j as int));
        assert(digits_value(body@.take(j + 1)) == value * 10 + d);
        if value > (u64::MAX - d) / 10 {
            proof {
                assert(value * 10 + d > u64::MAX) by (nonlinear_arith)
                    requires
                        value > (u64::MAX - d) / 10,
                        d < 10,
                ;
                lemma_digits_value_grows(body@, j + 1);
            }
            return None;
        }
        assert(value * 10 + d <= u64::MAX) by (nonlinear_arith)
            requires
                value <= (u64::MAX - d) / 10,
                d < 10,
        ;
        value = value * 10 + d;
        j += 1;
    }
    assert(body@.take(body.len() as int) =~= body@);
    Some(value)
}

} // verus!
