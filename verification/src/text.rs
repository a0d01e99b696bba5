//! Text primitives shared by the library: decimal rendering, whitespace
//! trimming, substring search, line splitting and character replacement,
//! each with a specification over `Seq<char>`.

use vstd::prelude::*;
use vstd::string::StringExecFns;

verus! {

// ---------------------------------------------------------------------------
// Decimal rendering
// ---------------------------------------------------------------------------

/// The ten decimal digit characters, in order.
pub open spec fn digit_chars() -> Seq<char> {
    seq!['0', '1', '2', '3', '4', '5', '6', '7', '8', '9']
}

/// The character of a decimal digit `d < 10`.
pub open spec fn digit(d: nat) -> char {
    digit_chars()[d as int]
}

/// Decimal representation of `n`, without leading zeros.
pub open spec fn decimal(n: nat) -> Seq<char>
    decreases n,
{
    if n < 10 {
        seq![digit(n)]
    } else {
        decimal(n / 10).push(digit(n % 10))
    }
}

/// `count` copies of `c`.
pub open spec fn repeat_char(c: char, count: nat) -> Seq<char> {
    Seq::new(count, |i: int| c)
}

/// Decimal representation of `n`, left-padded with zeros to at least `width` characters
/// (what `{:0width$}` prints for an unsigned integer).
pub open spec fn zero_padded(n: nat, width: nat) -> Seq<char> {
    let d = decimal(n);
    if d.len() >= width {
        d
    } else {
        repeat_char('0', (width - d.len()) as nat) + d
    }
}

/// Appends `c` to `s` (`String::push`).
#[verifier::external_body]
pub(crate) fn push_char(s: &mut String, c: char)
    ensures
        final(s)@ == old(s)@.push(c),
{
    s.push(c);
}

fn digit_char(d: u64) -> (c: char)
    requires
        d < 10,
    ensures
        c == digit(d as nat),
{
    if d == 0 {
        '0'
    } else if d == 1 {
        '1'
    } else if d == 2 {
        '2'
    } else if d == 3 {
        '3'
    } else if d == 4 {
        '4'
    } else if d == 5 {
        '5'
    } else if d == 6 {
        '6'
    } else if d == 7 {
        '7'
    } else if d == 8 {
        '8'
    } else {
        '9'
    }
}

/// The decimal digits of `n`.
pub fn decimal_chars(n: u64) -> (r: Vec<char>)
    ensures
        r@ == decimal(n as nat),
{
    let mut acc: Vec<char> = Vec::new();
    let mut m = n;
    while m >= 10
        invariant
            decimal(n as nat) == decimal(m as nat) + acc@,
        decreases m,
    {
        let d = digit_char(m % 10);
        let ghost before = acc@;
        proof {
            assert(decimal(m as nat) == decimal((m / 10) as nat).push(digit((m % 10) as nat)));
            assert(decimal(m as nat) + before =~= decimal((m / 10) as nat) + seq![d].add(before));
        }
        acc.insert(0, d);
        assert(acc@ =~= seq![d].add(before));
        m = m / 10;
    }
    let d = digit_char(m);
    let ghost before = acc@;
    acc.insert(0, d);
    assert(acc@ =~= seq![d].add(before));
    acc
}

/// Appends the characters of `v` to `s`.
pub fn push_chars(s: &mut String, v: &Vec<char>)
    ensures
        final(s)@ == old(s)@ + v@,
{
    let mut i: usize = 0;
    while i < v.len()
        invariant
            i <= v.len(),
            s@ == old(s)@ + v@.take(i as int),
        decreases v.len() - i,
    {
        push_char(s, v[i]);
        assert(v@.take(i + 1) =~= v@.take(i as int).push(v@[i as int]));
        i = i + 1;
    }
    assert(v@.take(v.len() as int) =~= v@);
}

/// Appends the characters of `v` from index `from` up to `to` to `s`.
pub fn push_char_range(s: &mut String, v: &Vec<char>, from: usize, to: usize)
    requires
        from <= to <= v.len(),
    ensures
        final(s)@ == old(s)@ + v@.subrange(from as int, to as int),
{
    let mut i: usize = from;
    while i < to
        invariant
            from <= i <= to <= v.len(),
            s@ == old(s)@ + v@.subrange(from as int, i as int),
        decreases to - i,
    {
        push_char(s, v[i]);
        assert(v@.subrange(from as int, i + 1) =~= v@.subrange(from as int, i as int).push(
            v@[i as int],
        ));
        i = i + 1;
    }
}

/// Appends the decimal digits of `n` to `s`.
pub fn push_decimal(s: &mut String, n: u64)
    ensures
        final(s)@ == old(s)@ + decimal(n as nat),
{
    let d = decimal_chars(n);
    push_chars(s, &d);
}

/// Appends `n` in decimal, zero-padded to at least `width` characters.
pub fn push_padded(s: &mut String, n: u64, width: usize)
    ensures
        final(s)@ == old(s)@ + zero_padded(n as nat, width as nat),
{
    let d = decimal_chars(n);
    if d.len() < width {
        let pad = width - d.len();
        let mut k: usize = 0;
        while k < pad
            invariant
                k <= pad,
                s@ == old(s)@ + repeat_char('0', k as nat),
            decreases pad - k,
        {
            push_char(s, '0');
            assert(repeat_char('0', (k + 1) as nat) =~= repeat_char('0', k as nat).push('0'));
            k = k + 1;
        }
        push_chars(s, &d);
        assert(old(s)@ + repeat_char('0', pad as nat) + d@ =~= old(s)@ + (repeat_char(
            '0',
            pad as nat,
        ) + d@));
    } else {
        push_chars(s, &d);
    }
}

/// `n` in decimal.
pub fn decimal_string(n: u64) -> (r: String)
    ensures
        r@ == decimal(n as nat),
{
    let mut s = String::new();
    push_decimal(&mut s, n);
    assert(s@ =~= decimal(n as nat));
    s
}

/// The characters of `s`, in order.
pub fn chars_of(s: &str) -> (r: Vec<char>)
    ensures
        r@ == s@,
{
    let mut r: Vec<char> = Vec::new();
    for c in it: s.chars()
        invariant
            r@ == it.seq().take(it.index() as int),
            it.seq() == s@,
    {
        r.push(c);
    }
    r
}

/// A string holding the characters of `v`.
pub fn string_of(v: &Vec<char>) -> (r: String)
    ensures
        r@ == v@,
{
    let mut s = String::new();
    push_chars(&mut s, v);
    assert(s@ =~= v@);
    s
}


// ---------------------------------------------------------------------------
// Whitespace and trimming
// ---------------------------------------------------------------------------

/// Unicode `White_Space` characters, the set that `char::is_whitespace` accepts.
pub open spec fn is_white_space(c: char) -> bool {
    let u = c as u32;
    ||| 0x9 <= u <= 0xd
    ||| u == 0x20
    ||| u == 0x85
    ||| u == 0xa0
    ||| u == 0x1680
    ||| 0x2000 <= u <= 0x200a
    ||| u == 0x2028
    ||| u == 0x2029
    ||| u == 0x202f
    ||| u == 0x205f
    ||| u == 0x3000
}

/// Whether `c` is a Unicode white-space character.
pub fn white_space(c: char) -> (b: bool)
    ensures
        b == is_white_space(c),
{
    let u = c as u32;
    (0x9 <= u && u <= 0xd) || u == 0x20 || u == 0x85 || u == 0xa0 || u == 0x1680 || (0x2000 <= u
        && u <= 0x200a) || u == 0x2028 || u == 0x2029 || u == 0x202f || u == 0x205f || u == 0x3000
}

/// `s` without its leading white space.
pub open spec fn trim_start(s: Seq<char>) -> Seq<char>
    decreases s.len(),
{
    if s.len() > 0 && is_white_space(s[0]) {
        trim_start(s.drop_first())
    } else {
        s
    }
}

/// `s` without its trailing white space.
pub open spec fn trim_end(s: Seq<char>) -> Seq<char>
    decreases s.len(),
{
    if s.len() > 0 && is_white_space(s.last()) {
        trim_end(s.drop_last())
    } else {
        s
    }
}

/// `s` without leading and trailing white space (what `str::trim` returns).
pub open spec fn trim(s: Seq<char>) -> Seq<char> {
    trim_end(trim_start(s))
}

/// Bounds `(a, b)` such that `v[a..b]` is `v[from..to]` trimmed.
pub fn trim_bounds(v: &Vec<char>, from: usize, to: usize) -> (r: (usize, usize))
    requires
        from <= to <= v.len(),
    ensures
        from <= r.0 <= r.1 <= to,
        v@.subrange(r.0 as int, r.1 as int) == trim(v@.subrange(from as int, to as int)),
{
    let mut a = from;
    while a < to && white_space(v[a])
        invariant
            from <= a <= to <= v.len(),
            trim_start(v@.subrange(from as int, to as int)) == trim_start(
                v@.subrange(a as int, to as int),
            ),
        decreases to - a,
    {
        assert(v@.subrange(a as int, to as int).drop_first() =~= v@.subrange(a + 1, to as int));
        a = a + 1;
    }
    let mut b = to;
    while b > a && white_space(v[b - 1])
        invariant
            from <= a <= b <= to <= v.len(),
            trim_end(v@.subrange(a as int, to as int)) == trim_end(v@.subrange(a as int, b as int)),
        decreases b,
    {
        assert(v@.subrange(a as int, b as int).drop_last() =~= v@.subrange(a as int, b - 1));
        b = b - 1;
    }
    (a, b)
}

/// `s` with leading and trailing white space removed.
pub fn trimmed(s: &str) -> (r: String)
    ensures
        r@ == trim(s@),
{
    let v = chars_of(s);
    let (a, b) = trim_bounds(&v, 0, v.len());
    assert(v@.subrange(0, v.len() as int) =~= v@);
    let mut out = String::new();
    push_char_range(&mut out, &v, a, b);
    assert(out@ =~= v@.subrange(a as int, b as int));
    out
}

// ---------------------------------------------------------------------------
// Search
// ---------------------------------------------------------------------------

/// Whether `pat` occurs in `s` at index `i`.
pub open spec fn occurs_at(s: Seq<char>, pat: Seq<char>, i: int) -> bool {
    0 <= i && i + pat.len() <= s.len() && s.subrange(i, i + pat.len()) == pat
}

/// Index of the first occurrence of `pat` in `s` (what `str::find` locates).
pub open spec fn find(s: Seq<char>, pat: Seq<char>) -> Option<int>
    decreases s.len(),
{
    if s.len() < pat.len() {
        None
    } else if s.take(pat.len() as int) == pat {
        Some(0)
    } else if s.len() == 0 {
        None
    } else {
        match find(s.drop_first(), pat) {
            Some(i) => Some(i + 1),
            None => None,
        }
    }
}

/// Whether `pat` occurs in `s` (what `str::contains` answers).
pub open spec fn contains(s: Seq<char>, pat: Seq<char>) -> bool {
    find(s, pat) is Some
}

/// The first occurrence found by `find` is the least index at which `pat` occurs.
pub proof fn lemma_find(s: Seq<char>, pat: Seq<char>, k: int)
    requires
        0 <= k,
        forall|j: int| 0 <= j < k ==> !occurs_at(s, pat, j),
    ensures
        occurs_at(s, pat, k) ==> find(s, pat) == Some(k),
        k + pat.len() > s.len() ==> find(s, pat) is None,
    decreases k,
{
    if k == 0 {
        if occurs_at(s, pat, 0) {
            assert(s.take(pat.len() as int) =~= s.subrange(0, pat.len() as int));
        }
        if pat.len() > s.len() {
        }
    } else {
        assert(!occurs_at(s, pat, 0));
        if s.len() >= pat.len() {
            assert(s.take(pat.len() as int) =~= s.subrange(0, pat.len() as int));
            assert(s.take(pat.len() as int) != pat);
            if s.len() > 0 {
                let t = s.drop_first();
                assert forall|j: int| 0 <= j < k - 1 implies !occurs_at(t, pat, j) by {
                    if occurs_at(t, pat, j) {
                        assert(s.subrange(j + 1, j + 1 + pat.len()) =~= t.subrange(j, j + pat.len()));
                        assert(occurs_at(s, pat, j + 1));
                    }
                }
                lemma_find(t, pat, k - 1);
                if occurs_at(s, pat, k) {
                    assert(s.subrange(k, k + pat.len()) =~= t.subrange(k - 1, k - 1 + pat.len()));
                }
            }
        }
    }
}

/// An occurrence found by `find` lies within `s`.
pub proof fn lemma_find_bound(s: Seq<char>, pat: Seq<char>)
    ensures
        find(s, pat) matches Some(i) ==> occurs_at(s, pat, i),
    decreases s.len(),
{
    if s.len() >= pat.len() && s.take(pat.len() as int) != pat && s.len() > 0 {
        lemma_find_bound(s.drop_first(), pat);
        if let Some(i) = find(s.drop_first(), pat) {
            assert(s.subrange(i + 1, i + 1 + pat.len()) =~= s.drop_first().subrange(i, i + pat.len()));
        }
    } else if s.len() >= pat.len() && s.take(pat.len() as int) == pat {
        assert(s.subrange(0, pat.len() as int) =~= s.take(pat.len() as int));
    }
}

/// Index of the first occurrence of `pat` in `s`.
pub fn find_chars(s: &Vec<char>, pat: &Vec<char>) -> (r: Option<usize>)
    ensures
        r matches Some(i) ==> find(s@, pat@) == Some(i as int),
        r is None ==> find(s@, pat@) is None,
{
    if pat.len() > s.len() {
        proof {
            lemma_find(s@, pat@, 0);
        }
        return None;
    }
    let last = s.len() - pat.len();
    let mut i: usize = 0;
    while i <= last
        invariant
            last == s.len() - pat.len(),
            pat.len() <= s.len(),
            forall|j: int| 0 <= j < i ==> !occurs_at(s@, pat@, j),
        decreases last + 1 - i,
    {
        let mut k: usize = 0;
        let mut same = true;
        while k < pat.len()
            invariant
                i <= last,
                last == s.len() - pat.len(),
                k <= pat.len(),
                same == (forall|m: int| 0 <= m < k ==> s@[i + m] == pat@[m]),
            decreases pat.len() - k,
        {
            if s[i + k] != pat[k] {
                same = false;
            }
            k = k + 1;
        }
        if same {
            assert(s@.subrange(i as int, i + pat.len()) =~= pat@);
            proof {
                lemma_find(s@, pat@, i as int);
            }
            return Some(i);
        }
        assert(!occurs_at(s@, pat@, i as int)) by {
            if occurs_at(s@, pat@, i as int) {
                assert forall|m: int| 0 <= m < pat.len() implies s@[i + m] == pat@[m] by {
                    assert(s@.subrange(i as int, i + pat.len())[m] == s@[i + m]);
                }
            }
        }
        i = i + 1;
    }
    proof {
        lemma_find(s@, pat@, i as int);
    }
    None
}

// ---------------------------------------------------------------------------
// Lines
// ---------------------------------------------------------------------------

/// `s` without one trailing carriage return.
pub open spec fn strip_cr(s: Seq<char>) -> Seq<char> {
    if s.len() > 0 && s.last() == '\r' {
        s.drop_last()
    } else {
        s
    }
}

/// Index of the first `c` in `s`.
pub open spec fn index_of(s: Seq<char>, c: char) -> Option<int>
    decreases s.len(),
{
    if s.len() == 0 {
        None
    } else if s[0] == c {
        Some(0)
    } else {
        match index_of(s.drop_first(), c) {
            Some(i) => Some(i + 1),
            None => None,
        }
    }
}

/// `index_of` locates the least index holding `c`.
pub proof fn lemma_index_of(s: Seq<char>, c: char, k: int)
    requires
        0 <= k <= s.len(),
        forall|j: int| 0 <= j < k ==> s[j] != c,
    ensures
        k < s.len() && s[k] == c ==> index_of(s, c) == Some(k),
        k == s.len() ==> index_of(s, c) is None,
    decreases k,
{
    if k > 0 {
        lemma_index_of(s.drop_first(), c, k - 1);
    }
}

/// An index found by `index_of` lies within `s` and holds `c`.
pub proof fn lemma_index_of_bound(s: Seq<char>, c: char)
    ensures
        index_of(s, c) matches Some(i) ==> 0 <= i < s.len() && s[i] == c,
    decreases s.len(),
{
    if s.len() > 0 && s[0] != c {
        lemma_index_of_bound(s.drop_first(), c);
    }
}

/// The lines of `s` as `str::lines` yields them: split at `\n`, with one `\r`
/// before each `\n` removed, and no empty last line after a final `\n`.
pub open spec fn lines(s: Seq<char>) -> Seq<Seq<char>>
    decreases s.len(),
{
    if s.len() == 0 {
        seq![]
    } else {
        match index_of(s, '\n') {
            None => seq![s],
            Some(i) => {
                proof {
                    lemma_index_of_bound(s, '\n');
                }
                seq![strip_cr(s.take(i))] + lines(s.skip(i + 1))
            },
        }
    }
}

/// The lines of `s`.
pub fn split_lines(s: &Vec<char>) -> (r: Vec<Vec<char>>)
    ensures
        r@.map_values(|l: Vec<char>| l@) == lines(s@),
{
    let mut r: Vec<Vec<char>> = Vec::new();
    let mut p: usize = 0;
    assert(s@.skip(0) =~= s@);
    while p < s.len()
        invariant
            p <= s.len(),
            lines(s@) == r@.map_values(|l: Vec<char>| l@) + lines(s@.skip(p as int)),
        decreases s.len() - p,
    {
        let mut i = p;
        while i < s.len() && s[i] != '\n'
            invariant
                p <= i <= s.len(),
                forall|j: int| p <= j < i ==> s@[j] != '\n',
            decreases s.len() - i,
        {
            i = i + 1;
        }
        let ghost rest = s@.skip(p as int);
        proof {
            lemma_index_of(rest, '\n', i - p);
        }
        let mut end = i;
        if end > p && s[end - 1] == '\r' && i < s.len() {
            end = end - 1;
        }
        let mut line: Vec<char> = Vec::new();
        let mut k = p;
        while k < end
            invariant
                p <= k <= end <= s.len(),
                line@ == s@.subrange(p as int, k as int),
            decreases end - k,
        {
            line.push(s[k]);
            assert(s@.subrange(p as int, k + 1) =~= s@.subrange(p as int, k as int).push(s@[k as int]));
            k = k + 1;
        }
        let ghost before = r@.map_values(|l: Vec<char>| l@);
        r.push(line);
        if i < s.len() {
            proof {
                assert(rest.take(i - p) =~= s@.subrange(p as int, i as int));
                assert(rest.skip(i - p + 1) =~= s@.skip(i + 1));
                assert(strip_cr(rest.take(i - p)) =~= line@);
                assert(r@.map_values(|l: Vec<char>| l@) =~= before.push(line@));
                assert(before + lines(rest) =~= r@.map_values(|l: Vec<char>| l@) + lines(
                    s@.skip(i + 1),
                ));
            }
            p = i + 1;
        } else {
            proof {
                assert(rest =~= line@);
                assert(r@.map_values(|l: Vec<char>| l@) =~= before.push(line@));
                assert(s@.skip(s.len() as int) =~= Seq::<char>::empty());
                assert(before + lines(rest) =~= r@.map_values(|l: Vec<char>| l@) + lines(
                    s@.skip(s.len() as int),
                ));
            }
            p = s.len();
        }
    }
    proof {
        assert(s@.skip(p as int) =~= Seq::<char>::empty());
        assert(lines(s@) =~= r@.map_values(|l: Vec<char>| l@));
    }
    r
}

// ---------------------------------------------------------------------------
// Calls into std whose results are stated or named
// ---------------------------------------------------------------------------

/// What `str::to_lowercase` returns for a string: its Unicode lowercase mapping.
pub uninterp spec fn lowercase_of(s: Seq<char>) -> Seq<char>;

/// Whether every character of `s` is ASCII.
pub open spec fn is_ascii_text(s: Seq<char>) -> bool {
    forall|i: int| 0 <= i < s.len() ==> (#[trigger] s[i] as u32) < 128
}

/// `s` with A-Z turned into a-z and every other character kept.
pub open spec fn ascii_lowered(s: Seq<char>) -> Seq<char> {
    s.map_values(|c: char| ascii_lower(c))
}

/// `str::to_lowercase`: the result is named as `lowercase_of` of the input; the
/// Unicode case tables it applies are not restated here. Of ASCII text the
/// contract states what Unicode's lowercase mapping does there: A-Z become a-z and
/// every other character stays.
#[verifier::external_body]
pub(crate) fn to_lowercase(s: &str) -> (r: String)
    ensures
        r@ == lowercase_of(s@),
        is_ascii_text(s@) ==> r@ == ascii_lowered(s@),
{
    s.to_lowercase()
}

/// ASCII lowercase of one character.
pub open spec fn ascii_lower(c: char) -> char {
    if 'A' <= c <= 'Z' {
        ((c as u32) + 32) as char
    } else {
        c
    }
}

/// Whether `c` is an ASCII decimal digit.
pub open spec fn is_digit(c: char) -> bool {
    '0' <= c <= '9'
}

/// Whether every character of `s` is a decimal digit.
pub open spec fn all_digits(s: Seq<char>) -> bool {
    forall|i: int| 0 <= i < s.len() ==> is_digit(#[trigger] s[i])
}

/// Whether `c` is a sign character.
pub open spec fn is_sign(c: char) -> bool {
    c == '+' || c == '-'
}

/// Number of decimal digits at the start of `s`.
pub open spec fn leading_digits(s: Seq<char>) -> nat
    decreases s.len(),
{
    if s.len() > 0 && is_digit(s[0]) {
        1 + leading_digits(s.drop_first())
    } else {
        0
    }
}

/// `leading_digits` counts the maximal run of digits.
pub proof fn lemma_leading_digits(s: Seq<char>, k: int)
    requires
        0 <= k <= s.len(),
        forall|j: int| 0 <= j < k ==> is_digit(#[trigger] s[j]),
        k == s.len() || !is_digit(s[k]),
    ensures
        leading_digits(s) == k,
    decreases k,
{
    if k > 0 {
        lemma_leading_digits(s.drop_first(), k - 1);
    }
}

/// `'e' Sign? Digit+`, with the `e` in either case.
pub open spec fn is_float_exponent(s: Seq<char>) -> bool {
    &&& s.len() >= 2
    &&& ascii_lower(s[0]) == 'e'
    &&& {
        let digits = if is_sign(s[1]) {
            s.skip(2)
        } else {
            s.skip(1)
        };
        digits.len() > 0 && all_digits(digits)
    }
}

/// `Number ::= ( Digit+ | Digit+ '.' Digit* | Digit* '.' Digit+ ) Exp?`, read left
/// to right: the digits before the point, an optional point with the digits after
/// it, at least one digit in all, then nothing or an exponent.
pub open spec fn is_float_number(s: Seq<char>) -> bool {
    let a = leading_digits(s);
    let after_int = s.skip(a as int);
    let has_point = after_int.len() > 0 && after_int[0] == '.';
    let b = if has_point {
        leading_digits(after_int.skip(1))
    } else {
        0
    };
    let rest = if has_point {
        after_int.skip((1 + b) as int)
    } else {
        after_int
    };
    a + b > 0 && (rest.len() == 0 || is_float_exponent(rest))
}

/// The grammar that the documentation of `str::parse` for single-precision floats
/// gives for the strings it accepts: `Sign? ( 'inf' | 'infinity' | 'nan' | Number )`,
/// letters in either case, no surrounding white space.
pub open spec fn is_float_literal(s: Seq<char>) -> bool {
    let body = if s.len() > 0 && is_sign(s[0]) {
        s.drop_first()
    } else {
        s
    };
    let lower = body.map_values(|c: char| ascii_lower(c));
    ||| lower == seq!['i', 'n', 'f']
    ||| lower == seq!['i', 'n', 'f', 'i', 'n', 'i', 't', 'y']
    ||| lower == seq!['n', 'a', 'n']
    ||| is_float_number(body)
}

fn lower_char(c: char) -> (r: char)
    ensures
        r == ascii_lower(c),
{
    if 'A' <= c && c <= 'Z' {
        let u = (c as u8) + 32;
        u as char
    } else {
        c
    }
}

fn is_digit_char(c: char) -> (b: bool)
    ensures
        b == is_digit(c),
{
    '0' <= c && c <= '9'
}

fn count_digits(v: &Vec<char>, from: usize) -> (n: usize)
    requires
        from <= v.len(),
    ensures
        from + n <= v.len(),
        n == leading_digits(v@.skip(from as int)),
{
    let mut i = from;
    while i < v.len() && is_digit_char(v[i])
        invariant
            from <= i <= v.len(),
            forall|j: int| from <= j < i ==> is_digit(#[trigger] v@[j]),
        decreases v.len() - i,
    {
        i = i + 1;
    }
    proof {
        let t = v@.skip(from as int);
        assert forall|j: int| 0 <= j < i - from implies is_digit(#[trigger] t[j]) by {
            assert(t[j] == v@[from + j]);
        }
        lemma_leading_digits(t, i - from);
    }
    i - from
}

fn matches_lower(v: &Vec<char>, from: usize, word: &Vec<char>) -> (b: bool)
    requires
        from <= v.len(),
    ensures
        b == (v@.skip(from as int).map_values(|c: char| ascii_lower(c)) == word@),
{
    let ghost lower = v@.skip(from as int).map_values(|c: char| ascii_lower(c));
    if v.len() - from != word.len() {
        assert(lower.len() != word@.len());
        return false;
    }
    let mut k: usize = 0;
    while k < word.len()
        invariant
            from + word.len() == v.len(),
            k <= word.len(),
            lower == v@.skip(from as int).map_values(|c: char| ascii_lower(c)),
            forall|m: int| 0 <= m < k ==> lower[m] == word@[m],
        decreases word.len() - k,
    {
        if lower_char(v[from + k]) != word[k] {
            assert(lower[k as int] != word@[k as int]);
            return false;
        }
        k = k + 1;
    }
    assert(lower =~= word@);
    true
}

/// Whether `v[from..]` is an exponent part.
fn exponent_at(v: &Vec<char>, from: usize) -> (b: bool)
    requires
        from <= v.len(),
    ensures
        b == is_float_exponent(v@.skip(from as int)),
{
    let ghost s = v@.skip(from as int);
    if v.len() - from < 2 {
        return false;
    }
    if lower_char(v[from]) != 'e' {
        return false;
    }
    let start = if v[from + 1] == '+' || v[from + 1] == '-' {
        from + 2
    } else {
        from + 1
    };
    let n = count_digits(v, start);
    proof {
        let digits = if is_sign(s[1]) {
            s.skip(2)
        } else {
            s.skip(1)
        };
        assert(digits =~= v@.skip(start as int));
        if n == v.len() - start && n > 0 {
            assert forall|i: int| 0 <= i < digits.len() implies is_digit(#[trigger] digits[i]) by {
                lemma_leading_digits_all(v@.skip(start as int), i);
            }
        }
        if digits.len() > 0 && all_digits(digits) {
            lemma_all_digits_leading(digits);
        }
    }
    n > 0 && n == v.len() - start
}

/// The leading run lies within `s`.
proof fn lemma_leading_digits_bound(s: Seq<char>)
    ensures
        leading_digits(s) <= s.len(),
    decreases s.len(),
{
    if s.len() > 0 {
        lemma_leading_digits_bound(s.drop_first());
    }
}

/// Inside the leading run, every character is a digit.
proof fn lemma_leading_digits_all(s: Seq<char>, i: int)
    requires
        0 <= i < leading_digits(s),
    ensures
        is_digit(s[i]),
    decreases i,
{
    assert(s.len() > 0 && is_digit(s[0]));
    lemma_leading_digits_bound(s);
    if i > 0 {
        lemma_leading_digits_all(s.drop_first(), i - 1);
        assert(s.drop_first()[i - 1] == s[i]);
    }
}

/// A run of digits only is its own leading run.
proof fn lemma_all_digits_leading(s: Seq<char>)
    requires
        all_digits(s),
    ensures
        leading_digits(s) == s.len(),
    decreases s.len(),
{
    if s.len() > 0 {
        assert(is_digit(s[0]));
        assert forall|i: int| 0 <= i < s.drop_first().len() implies is_digit(
            #[trigger] s.drop_first()[i],
        ) by {
            assert(s.drop_first()[i] == s[i + 1]);
        }
        lemma_all_digits_leading(s.drop_first());
    }
}

/// Whether `v[from..]` is a `Number`.
fn number_at(v: &Vec<char>, from: usize) -> (b: bool)
    requires
        from <= v.len(),
    ensures
        b == is_float_number(v@.skip(from as int)),
{
    let ghost s = v@.skip(from as int);
    let a = count_digits(v, from);
    let p = from + a;
    assert(s.skip(a as int) =~= v@.skip(p as int));
    let has_point = p < v.len() && v[p] == '.';
    let mut b: usize = 0;
    let mut rest = p;
    if has_point {
        b = count_digits(v, p + 1);
        rest = p + 1 + b;
        assert(s.skip(a as int).skip(1) =~= v@.skip(p + 1));
        assert(s.skip(a as int).skip(1 + b) =~= v@.skip(rest as int));
    }
    let ok_exp = rest == v.len() || exponent_at(v, rest);
    assert(v@.skip(rest as int).len() == v.len() - rest);
    a + b > 0 && ok_exp
}

/// Whether `s` is a literal that the single-precision float parser of std accepts
/// (`is_float_literal`, the grammar of its documentation).
pub fn float_literal(s: &str) -> (b: bool)
    ensures
        b == is_float_literal(s@),
{
    let v = chars_of(s);
    float_literal_chars(&v)
}

/// Whether the characters of `v` form a literal that the single-precision float
/// parser of std accepts.
pub fn float_literal_chars(v: &Vec<char>) -> (b: bool)
    ensures
        b == is_float_literal(v@),
{
    let from: usize = if v.len() > 0 && (v[0] == '+' || v[0] == '-') {
        1
    } else {
        0
    };
    assert(from == 1 ==> v@.skip(1) =~= v@.drop_first());
    assert(from == 0 ==> v@.skip(0) =~= v@);
    let inf = chars_of("inf");
    let infinity = chars_of("infinity");
    let nan = chars_of("nan");
    proof {
        reveal_strlit("inf");
        reveal_strlit("infinity");
        reveal_strlit("nan");
        assert(inf@ =~= seq!['i', 'n', 'f']);
        assert(infinity@ =~= seq!['i', 'n', 'f', 'i', 'n', 'i', 't', 'y']);
        assert(nan@ =~= seq!['n', 'a', 'n']);
    }
    matches_lower(&v, from, &inf) || matches_lower(&v, from, &infinity) || matches_lower(
        &v,
        from,
        &nan,
    ) || number_at(&v, from)
}

// ---------------------------------------------------------------------------
// Character replacement
// ---------------------------------------------------------------------------

/// `s` with every single quote written as `'\''`, so that it can stand inside
/// a single-quoted shell-style string.
pub open spec fn escape_single_quotes(s: Seq<char>) -> Seq<char>
    decreases s.len(),
{
    if s.len() == 0 {
        seq![]
    } else {
        escape_single_quotes(s.drop_last()) + if s.last() == '\'' {
            seq!['\'', '\\', '\'', '\'']
        } else {
            seq![s.last()]
        }
    }
}

/// Appends `v` with its single quotes escaped to `out`.
pub fn push_escaped_quotes(out: &mut String, v: &Vec<char>)
    ensures
        final(out)@ == old(out)@ + escape_single_quotes(v@),
{
    let mut i: usize = 0;
    while i < v.len()
        invariant
            i <= v.len(),
            out@ == old(out)@ + escape_single_quotes(v@.take(i as int)),
        decreases v.len() - i,
    {
        let c = v[i];
        let ghost before = out@;
        if c == '\'' {
            push_char(out, '\'');
            push_char(out, '\\');
            push_char(out, '\'');
            push_char(out, '\'');
        } else {
            push_char(out, c);
        }
        proof {
            assert(v@.take(i + 1).drop_last() =~= v@.take(i as int));
            assert(out@ =~= old(out)@ + escape_single_quotes(v@.take(i + 1)));
        }
        i = i + 1;
    }
    assert(v@.take(v.len() as int) =~= v@);
}

/// `s` with every line feed replaced by a space and every carriage return removed.
pub open spec fn flatten_line_breaks(s: Seq<char>) -> Seq<char>
    decreases s.len(),
{
    if s.len() == 0 {
        seq![]
    } else {
        flatten_line_breaks(s.drop_last()) + if s.last() == '\n' {
            seq![' ']
        } else if s.last() == '\r' {
            seq![]
        } else {
            seq![s.last()]
        }
    }
}

/// Appends `v[from..to]` to `out` with line feeds replaced by spaces and carriage returns dropped.
pub fn push_flattened(out: &mut String, v: &Vec<char>, from: usize, to: usize)
    requires
        from <= to <= v.len(),
    ensures
        final(out)@ == old(out)@ + flatten_line_breaks(v@.subrange(from as int, to as int)),
{
    let mut i: usize = from;
    while i < to
        invariant
            from <= i <= to <= v.len(),
            out@ == old(out)@ + flatten_line_breaks(v@.subrange(from as int, i as int)),
        decreases to - i,
    {
        let c = v[i];
        if c == '\n' {
            push_char(out, ' ');
        } else if c != '\r' {
            push_char(out, c);
        }
        proof {
            assert(v@.subrange(from as int, i + 1).drop_last() =~= v@.subrange(from as int, i as int));
            assert(out@ =~= old(out)@ + flatten_line_breaks(v@.subrange(from as int, i + 1)));
        }
        i = i + 1;
    }
}

// ---------------------------------------------------------------------------
// Comparison
// ---------------------------------------------------------------------------

/// Whether `a` and `b` hold the same characters.
pub fn str_eq(a: &str, b: &str) -> (r: bool)
    ensures
        r == (a@ == b@),
{
    let x = chars_of(a);
    let y = chars_of(b);
    chars_eq(&x, &y)
}

/// Whether `x` and `y` hold the same characters.
pub fn chars_eq(x: &Vec<char>, y: &Vec<char>) -> (r: bool)
    ensures
        r == (x@ == y@),
{
    if x.len() != y.len() {
        return false;
    }
    let mut i: usize = 0;
    while i < x.len()
        invariant
            x.len() == y.len(),
            i <= x.len(),
            forall|j: int| 0 <= j < i ==> x@[j] == y@[j],
        decreases x.len() - i,
    {
        if x[i] != y[i] {
            return false;
        }
        i = i + 1;
    }
    assert(x@ =~= y@);
    true
}

// ---------------------------------------------------------------------------
// Concatenation
// ---------------------------------------------------------------------------

/// `piece(0) + piece(1) + ... + piece(n - 1)`.
pub open spec fn joined(n: int, piece: spec_fn(int) -> Seq<char>) -> Seq<char>
    decreases n,
{
    if n <= 0 {
        seq![]
    } else {
        joined(n - 1, piece) + piece(n - 1)
    }
}

/// Piece `i` of a joined text stands between the pieces before it and the text
/// after it.
pub proof fn lemma_joined_split(n: int, i: int, piece: spec_fn(int) -> Seq<char>) -> (post: Seq<
    char,
>)
    requires
        0 <= i < n,
    ensures
        joined(n, piece) == joined(i, piece) + piece(i) + post,
    decreases n,
{
    if i == n - 1 {
        assert(joined(n, piece) =~= joined(i, piece) + piece(i) + Seq::<char>::empty());
        Seq::<char>::empty()
    } else {
        let p = lemma_joined_split(n - 1, i, piece);
        assert(joined(n, piece) =~= joined(i, piece) + piece(i) + (p + piece(n - 1)));
        p + piece(n - 1)
    }
}

/// Joining pieces that agree one by one gives the same text.
pub proof fn lemma_joined_congruent(
    n: int,
    piece: spec_fn(int) -> Seq<char>,
    other: spec_fn(int) -> Seq<char>,
)
    requires
        forall|i: int| 0 <= i < n ==> #[trigger] piece(i) == other(i),
    ensures
        joined(n, piece) == joined(n, other),
    decreases n,
{
    if n > 0 {
        lemma_joined_congruent(n - 1, piece, other);
    }
}

// ---------------------------------------------------------------------------
// UTF-8 lengths
// ---------------------------------------------------------------------------

/// Number of bytes of the UTF-8 encoding of `c`.
pub open spec fn char_width(c: char) -> nat {
    let u = c as u32;
    if u < 0x80 {
        1
    } else if u < 0x800 {
        2
    } else if u < 0x10000 {
        3
    } else {
        4
    }
}

/// Number of bytes of the UTF-8 encoding of `s` (what `str::len` returns).
pub open spec fn utf8_len(s: Seq<char>) -> nat
    decreases s.len(),
{
    if s.len() == 0 {
        0
    } else {
        char_width(s[0]) + utf8_len(s.drop_first())
    }
}

/// Number of leading characters of `s` whose encoding fits in `b` bytes.
pub open spec fn chars_in_bytes(s: Seq<char>, b: nat) -> nat
    decreases s.len(),
{
    if s.len() > 0 && char_width(s[0]) <= b {
        1 + chars_in_bytes(s.drop_first(), (b - char_width(s[0])) as nat)
    } else {
        0
    }
}

/// Whether byte index `b` of the encoding of `s` starts a character or is its end
/// (what `str::is_char_boundary` answers).
pub open spec fn is_boundary(s: Seq<char>, b: nat) -> bool
    decreases s.len(),
{
    if b == 0 {
        true
    } else if s.len() > 0 && char_width(s[0]) <= b {
        is_boundary(s.drop_first(), (b - char_width(s[0])) as nat)
    } else {
        false
    }
}

/// The encoding of a concatenation is the two encodings one after the other.
pub proof fn lemma_utf8_len_concat(a: Seq<char>, b: Seq<char>)
    ensures
        utf8_len(a + b) == utf8_len(a) + utf8_len(b),
    decreases a.len(),
{
    if a.len() > 0 {
        assert((a + b).drop_first() =~= a.drop_first() + b);
        lemma_utf8_len_concat(a.drop_first(), b);
    } else {
        assert(a + b =~= b);
    }
}

/// The characters that fit in `b` bytes take at most `b` bytes.
pub proof fn lemma_prefix_fits(s: Seq<char>, b: nat)
    ensures
        utf8_len(s.take(chars_in_bytes(s, b) as int)) <= b,
        chars_in_bytes(s, b) <= s.len(),
    decreases s.len(),
{
    if s.len() > 0 && char_width(s[0]) <= b {
        let rest = (b - char_width(s[0])) as nat;
        lemma_prefix_fits(s.drop_first(), rest);
        let k = chars_in_bytes(s.drop_first(), rest);
        assert(s.take(k + 1 as int).drop_first() =~= s.drop_first().take(k as int));
    } else {
        assert(s.take(0) =~= Seq::<char>::empty());
    }
}

/// What follows a character boundary at byte `b` takes the remaining bytes.
pub proof fn lemma_suffix_after_boundary(s: Seq<char>, b: nat)
    requires
        is_boundary(s, b),
    ensures
        b <= utf8_len(s),
        chars_in_bytes(s, b) <= s.len(),
        utf8_len(s.skip(chars_in_bytes(s, b) as int)) == utf8_len(s) - b,
    decreases s.len(),
{
    if b == 0 {
        if s.len() > 0 && char_width(s[0]) <= 0 {
            assert(char_width(s[0]) >= 1);
        }
        assert(s.skip(0) =~= s);
    } else {
        let rest = (b - char_width(s[0])) as nat;
        lemma_suffix_after_boundary(s.drop_first(), rest);
        let k = chars_in_bytes(s.drop_first(), rest);
        assert(s.skip(k + 1 as int) =~= s.drop_first().skip(k as int));
    }
}

/// Replacing line feeds by spaces and dropping carriage returns never lengthens the
/// encoding.
pub proof fn lemma_flatten_not_longer(s: Seq<char>)
    ensures
        utf8_len(flatten_line_breaks(s)) <= utf8_len(s),
    decreases s.len(),
{
    if s.len() > 0 {
        let init = s.drop_last();
        lemma_flatten_not_longer(init);
        let piece: Seq<char> = if s.last() == '\n' {
            seq![' ']
        } else if s.last() == '\r' {
            seq![]
        } else {
            seq![s.last()]
        };
        lemma_utf8_len_concat(flatten_line_breaks(init), piece);
        lemma_utf8_len_concat(init, seq![s.last()]);
        assert(init + seq![s.last()] =~= s);
        reveal_with_fuel(utf8_len, 2);
        assert(seq![s.last()].drop_first() =~= Seq::<char>::empty());
        if piece.len() == 1 {
            assert(piece.drop_first() =~= Seq::<char>::empty());
        }
    }
}

fn width_of(c: char) -> (w: u128)
    ensures
        w == char_width(c),
{
    let u = c as u32;
    if u < 0x80 {
        1
    } else if u < 0x800 {
        2
    } else if u < 0x10000 {
        3
    } else {
        4
    }
}

/// The number of bytes of the UTF-8 encoding of `v`.
pub fn utf8_length(v: &Vec<char>) -> (r: u128)
    ensures
        r == utf8_len(v@),
{
    let mut used: u128 = 0;
    let mut k: usize = 0;
    assert(v@.skip(0) =~= v@);
    while k < v.len()
        invariant
            k <= v.len(),
            used <= 4 * k,
            utf8_len(v@) == used + utf8_len(v@.skip(k as int)),
        decreases v.len() - k,
    {
        assert(v@.skip(k as int).drop_first() =~= v@.skip(k + 1));
        used = used + width_of(v[k]);
        k = k + 1;
    }
    assert(v@.skip(k as int).len() == 0);
    used
}

/// How many leading characters of `v` fit in `b` bytes, and whether byte `b` is a
/// character boundary.
pub fn byte_prefix(v: &Vec<char>, b: u128) -> (r: (usize, bool))
    ensures
        r.0 == chars_in_bytes(v@, b as nat),
        r.1 == is_boundary(v@, b as nat),
        r.0 <= v.len(),
{
    let mut used: u128 = 0;
    let mut k: usize = 0;
    assert(v@.skip(0) =~= v@);
    while k < v.len() && width_of(v[k]) <= b - used
        invariant
            k <= v.len(),
            used <= b,
            chars_in_bytes(v@, b as nat) == k + chars_in_bytes(v@.skip(k as int), (b - used) as nat),
            is_boundary(v@, b as nat) == is_boundary(v@.skip(k as int), (b - used) as nat),
        decreases v.len() - k,
    {
        assert(v@.skip(k as int).drop_first() =~= v@.skip(k + 1));
        assert(v@.skip(k as int)[0] == v@[k as int]);
        used = used + width_of(v[k]);
        k = k + 1;
    }
    proof {
        if k < v.len() {
            assert(v@.skip(k as int)[0] == v@[k as int]);
        }
    }
    (k, used == b)
}

} // verus!
