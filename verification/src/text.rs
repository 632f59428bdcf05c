use vstd::prelude::*;

verus! {

/// The characters of `s`, in order.
pub fn chars_of(s: &str) -> (v: Vec<char>)
    ensures
        v@ == s@,
{
    let mut v: Vec<char> = Vec::new();
    for c in it: s.chars()
        invariant
            v@ == it.seq().take(it.index() as int),
    {
        v.push(c);
    }
    v
}

/// Unicode's `White_Space` property: the characters that `str::trim` removes.
pub open spec fn is_white_space(c: char) -> bool {
    let x = c as u32;
    ||| 0x09 <= x <= 0x0d
    ||| x == 0x20
    ||| x == 0x85
    ||| x == 0xa0
    ||| x == 0x1680
    ||| 0x2000 <= x <= 0x200a
    ||| x == 0x2028
    ||| x == 0x2029
    ||| x == 0x202f
    ||| x == 0x205f
    ||| x == 0x3000
}

/// `s` without its leading white space.
pub open spec fn trim_start(s: Seq<char>) -> Seq<char>
    decreases s.len(),
{
    if s.len() > 0 && is_white_space(s[0]) {
        trim_start(s.drop_first())
    } else {
        s
    }
}

/// `s` without its trailing white space.
pub open spec fn trim_end(s: Seq<char>) -> Seq<char>
    decreases s.len(),
{
    if s.len() > 0 && is_white_space(s.last()) {
        trim_end(s.drop_last())
    } else {
        s
    }
}

/// `s` without leading and trailing white space, as `str::trim` gives it.
pub open spec fn trim(s: Seq<char>) -> Seq<char> {
    trim_end(trim_start(s))
}

/// An ASCII upper-case letter turned to lower case; any other character unchanged.
pub open spec fn lower_char(c: char) -> char {
    if 'A' <= c <= 'Z' {
        ((c as u32) + 32) as char
    } else {
        c
    }
}

/// `s` with every ASCII letter in lower case, as `str::to_ascii_lowercase` gives it.
pub open spec fn ascii_lower(s: Seq<char>) -> Seq<char> {
    s.map_values(|c: char| lower_char(c))
}

/// Lowering turns each ASCII upper-case letter into the letter 32 code points above it, the
/// lower-case one, and leaves every other character as it is.
pub proof fn lemma_lower_char_shifts_upper(c: char)
    ensures
        'A' <= c <= 'Z' ==> lower_char(c) as u32 == c as u32 + 32 && 'a' <= lower_char(c) <= 'z',
        !('A' <= c <= 'Z') ==> lower_char(c) == c,
{
    if 'A' <= c <= 'Z' {
        assert(((c as u32) + 32) as char as u32 == (c as u32) + 32);
    }
}

/// Lowering a string keeps its length and lowers each character on its own.
pub proof fn lemma_ascii_lower_shifts_upper(s: Seq<char>)
    ensures
        ascii_lower(s).len() == s.len(),
        forall|k: int|
            0 <= k < s.len() ==> ('A' <= #[trigger] s[k] <= 'Z' ==> ascii_lower(s)[k] as u32
                == s[k] as u32 + 32) && (!('A' <= s[k] <= 'Z') ==> ascii_lower(s)[k] == s[k]),
{
    assert forall|k: int| 0 <= k < s.len() implies ('A' <= #[trigger] s[k] <= 'Z' ==> ascii_lower(
        s,
    )[k] as u32 == s[k] as u32 + 32) && (!('A' <= s[k] <= 'Z') ==> ascii_lower(s)[k] == s[k]) by {
        lemma_lower_char_shifts_upper(s[k]);
    }
}

/// Whether `a` and `b` are equal once ASCII letters are compared without case.
pub open spec fn eq_ignore_ascii_case(a: Seq<char>, b: Seq<char>) -> bool {
    ascii_lower(a) == ascii_lower(b)
}

pub fn is_white_space_char(c: char) -> (b: bool)
    ensures
        b == is_white_space(c),
{
    let x: u32 = c as u32;
    (0x09 <= x && x <= 0x0d) || x == 0x20 || x == 0x85 || x == 0xa0 || x == 0x1680 || (0x2000
        <= x && x <= 0x200a) || x == 0x2028 || x == 0x2029 || x == 0x202f || x == 0x205f || x
        == 0x3000
}

pub fn lower_ascii_char(c: char) -> (r: char)
    ensures
        r == lower_char(c),
        'A' <= c <= 'Z' ==> r as u32 == c as u32 + 32,
        !('A' <= c <= 'Z') ==> r == c,
{
    proof {
        lemma_lower_char_shifts_upper(c);
    }
    if 'A' <= c && c <= 'Z' {
        let x: u8 = c as u8;
        (x + 32) as char
    } else {
        c
    }
}

proof fn lemma_trim_start_skip(s: Seq<char>, i: int)
    requires
        0 <= i <= s.len(),
        forall|k: int| 0 <= k < i ==> is_white_space(#[trigger] s[k]),
    ensures
        trim_start(s) == trim_start(s.subrange(i, s.len() as int)),
    decreases i,
{
    if i > 0 {
        let t = s.drop_first();
        assert forall|k: int| 0 <= k < i - 1 implies is_white_space(#[trigger] t[k]) by {
            assert(t[k] == s[k + 1]);
        }
        lemma_trim_start_skip(t, i - 1);
        assert(t.subrange(i - 1, t.len() as int) =~= s.subrange(i, s.len() as int));
    } else {
        assert(s.subrange(0, s.len() as int) =~= s);
    }
}

proof fn lemma_trim_end_skip(s: Seq<char>, j: int)
    requires
        0 <= j <= s.len(),
        forall|k: int| j <= k < s.len() ==> is_white_space(#[trigger] s[k]),
    ensures
        trim_end(s) == trim_end(s.subrange(0, j)),
    decreases s.len() - j,
{
    if j < s.len() {
        let t = s.drop_last();
        assert forall|k: int| j <= k < t.len() implies is_white_space(#[trigger] t[k]) by {
            assert(t[k] == s[k]);
        }
        lemma_trim_end_skip(t, j);
        assert(t.subrange(0, j) =~= s.subrange(0, j));
    } else {
        assert(s.subrange(0, j) =~= s);
    }
}

/// Whether every character of `s` is white space.
pub open spec fn all_white_space(s: Seq<char>) -> bool {
    forall|k: int| 0 <= k < s.len() ==> is_white_space(#[trigger] s[k])
}

proof fn lemma_trim_start_white(s: Seq<char>)
    requires
        all_white_space(s),
    ensures
        trim_start(s) == Seq::<char>::empty(),
{
    lemma_trim_start_skip(s, s.len() as int);
    assert(s.subrange(s.len() as int, s.len() as int) =~= Seq::<char>::empty());
}

proof fn lemma_trim_start_append_white(s: Seq<char>, q: Seq<char>)
    requires
        all_white_space(q),
    ensures
        trim_start(s + q) == (if trim_start(s).len() == 0 {
            Seq::<char>::empty()
        } else {
            trim_start(s) + q
        }),
    decreases s.len(),
{
    if s.len() == 0 {
        assert(s + q =~= q);
        lemma_trim_start_white(q);
    } else if is_white_space(s[0]) {
        assert((s + q)[0] == s[0]);
        assert((s + q).drop_first() =~= s.drop_first() + q);
        lemma_trim_start_append_white(s.drop_first(), q);
    } else {
        assert((s + q)[0] == s[0]);
    }
}

proof fn lemma_trim_end_append_white(x: Seq<char>, q: Seq<char>)
    requires
        all_white_space(q),
    ensures
        trim_end(x + q) == trim_end(x),
{
    let y = x + q;
    assert forall|k: int| x.len() <= k < y.len() implies is_white_space(#[trigger] y[k]) by {
        assert(y[k] == q[k - x.len()]);
    }
    lemma_trim_end_skip(y, x.len() as int);
    assert(y.subrange(0, x.len() as int) =~= x);
}

/// White space before and after `s` does not change what trimming leaves.
pub proof fn lemma_trim_ignores_padding(before: Seq<char>, s: Seq<char>, after: Seq<char>)
    requires
        all_white_space(before),
        all_white_space(after),
    ensures
        trim(before + s + after) == trim(s),
{
    let y = before + s + after;
    assert forall|k: int| 0 <= k < before.len() implies is_white_space(#[trigger] y[k]) by {
        assert(y[k] == before[k]);
    }
    lemma_trim_start_skip(y, before.len() as int);
    assert(y.subrange(before.len() as int, y.len() as int) =~= s + after);
    lemma_trim_start_append_white(s, after);
    if trim_start(s).len() == 0 {
        assert(trim_end(trim_start(s)) == trim_start(s)) by {
            assert(trim_start(s) =~= Seq::<char>::empty());
        }
    } else {
        lemma_trim_end_append_white(trim_start(s), after);
    }
}

proof fn lemma_lower_keeps_white_space(c: char)
    ensures
        is_white_space(lower_char(c)) == is_white_space(c),
{
}

proof fn lemma_trim_start_lower(s: Seq<char>)
    ensures
        trim_start(ascii_lower(s)) == ascii_lower(trim_start(s)),
    decreases s.len(),
{
    lemma_lower_keeps_white_space(if s.len() > 0 { s[0] } else { ' ' });
    if s.len() > 0 && is_white_space(s[0]) {
        assert(ascii_lower(s).drop_first() =~= ascii_lower(s.drop_first()));
        lemma_trim_start_lower(s.drop_first());
    }
}

proof fn lemma_trim_end_lower(s: Seq<char>)
    ensures
        trim_end(ascii_lower(s)) == ascii_lower(trim_end(s)),
    decreases s.len(),
{
    lemma_lower_keeps_white_space(if s.len() > 0 { s.last() } else { ' ' });
    if s.len() > 0 && is_white_space(s.last()) {
        assert(ascii_lower(s).drop_last() =~= ascii_lower(s.drop_last()));
        lemma_trim_end_lower(s.drop_last());
    }
}

/// Trimming and turning ASCII letters to lower case can be done in either order.
pub proof fn lemma_trim_lower_commute(s: Seq<char>)
    ensures
        trim(ascii_lower(s)) == ascii_lower(trim(s)),
{
    lemma_trim_start_lower(s);
    lemma_trim_end_lower(trim_start(s));
}

/// `s` without leading and trailing white space.
pub fn trim_chars(s: &Vec<char>) -> (r: Vec<char>)
    ensures
        r@ == trim(s@),
{
    let n = s.len();
    let mut i: usize = 0;
    while i < n && is_white_space_char(s[i])
        invariant
            0 <= i <= n,
            n == s@.len(),
            forall|k: int| 0 <= k < i ==> is_white_space(#[trigger] s@[k]),
        decreases n - i,
    {
        i = i + 1;
    }
    proof {
        lemma_trim_start_skip(s@, i as int);
    }
    let ghost t = s@.subrange(i as int, n as int);
    assert(trim_start(s@) == t);
    let mut j: usize = n;
    while j > i && is_white_space_char(s[j - 1])
        invariant
            i <= j <= n,
            n == s@.len(),
            t == s@.subrange(i as int, n as int),
            forall|k: int| j - i <= k < t.len() ==> is_white_space(#[trigger] t[k]),
        decreases j,
    {
        assert(t[j - 1 - i] == s@[j - 1]);
        j = j - 1;
    }
    proof {
        lemma_trim_end_skip(t, j - i);
        assert(t.subrange(0, j - i) =~= s@.subrange(i as int, j as int));
    }
    let mut r: Vec<char> = Vec::new();
    let mut k: usize = i;
    while k < j
        invariant
            i <= k <= j <= n,
            n == s@.len(),
            r@ =~= s@.subrange(i as int, k as int),
        decreases j - k,
    {
        r.push(s[k]);
        k = k + 1;
    }
    r
}

/// `s` with every ASCII letter in lower case.
pub fn lower_ascii(s: &Vec<char>) -> (r: Vec<char>)
    ensures
        r@ == ascii_lower(s@),
        r@.len() == s@.len(),
        forall|k: int|
            0 <= k < s@.len() ==> ('A' <= #[trigger] s@[k] <= 'Z' ==> r@[k] as u32 == s@[k] as u32
                + 32) && (!('A' <= s@[k] <= 'Z') ==> r@[k] == s@[k]),
{
    proof {
        lemma_ascii_lower_shifts_upper(s@);
    }
    let mut r: Vec<char> = Vec::new();
    let mut k: usize = 0;
    while k < s.len()
        invariant
            0 <= k <= s@.len(),
            r@ =~= ascii_lower(s@.take(k as int)),
        decreases s@.len() - k,
    {
        r.push(lower_ascii_char(s[k]));
        assert(s@.take(k + 1) =~= s@.take(k as int).push(s@[k as int]));
        k = k + 1;
    }
    assert(s@.take(s@.len() as int) =~= s@);
    r
}

/// Whether `a` and `b` hold the same characters.
pub fn chars_equal(a: &Vec<char>, b: &Vec<char>) -> (r: bool)
    ensures
        r == (a@ == b@),
{
    if a.len() != b.len() {
        return false;
    }
    let mut k: usize = 0;
    while k < a.len()
        invariant
            0 <= k <= a@.len(),
            a@.len() == b@.len(),
            forall|m: int| 0 <= m < k ==> a@[m] == b@[m],
        decreases a@.len() - k,
    {
        if a[k] != b[k] {
            return false;
        }
        k = k + 1;
    }
    assert(a@ =~= b@);
    true
}


/// The decimal digit for `d`, below ten.
pub open spec fn digit_char(d: nat) -> char {
    ((d + 48) as u32) as char
}

/// The decimal form of `n`, without sign or leading zeros, as `Display` writes an integer.
pub open spec fn decimal(n: nat) -> Seq<char>
    decreases n,
{
    if n < 10 {
        seq![digit_char(n)]
    } else {
        decimal(n / 10).push(digit_char(n % 10))
    }
}

/// `String::push`: appends one character to a string.
#[verifier::external_body]
fn push_char(s: &mut String, c: char)
    ensures
        final(s)@ == old(s)@.push(c),
{
    s.push(c);
}

/// A string holding the characters of `v`.
pub fn string_from_chars(v: &Vec<char>) -> (s: String)
    ensures
        s@ == v@,
{
    let mut s = String::new();
    let mut k: usize = 0;
    while k < v.len()
        invariant
            0 <= k <= v@.len(),
            s@ =~= v@.take(k as int),
        decreases v@.len() - k,
    {
        push_char(&mut s, v[k]);
        assert(v@.take(k + 1) =~= v@.take(k as int).push(v@[k as int]));
        k = k + 1;
    }
    assert(v@.take(v@.len() as int) =~= v@);
    s
}

fn digit(d: u128) -> (c: char)
    requires
        d < 10,
    ensures
        c == digit_char(d as nat),
{
    let x: u8 = d as u8;
    (x + 48) as char
}

/// The decimal digits of `n`.
pub fn decimal_chars(n: u128) -> (v: Vec<char>)
    ensures
        v@ == decimal(n as nat),
    decreases n,
{
    if n < 10 {
        let mut v: Vec<char> = Vec::new();
        v.push(digit(n));
        v
    } else {
        let mut v = decimal_chars(n / 10);
        v.push(digit(n % 10));
        v
    }
}

/// The decimal form of `n`, as `n.to_string()` gives it.
pub fn decimal_string(n: u128) -> (s: String)
    ensures
        s@ == decimal(n as nat),
{
    string_from_chars(&decimal_chars(n))
}

/// Why a string is not the decimal form of an unsigned integer, as `ParseIntError` tells it.
#[derive(Debug, Clone, Copy, PartialEq, Eq, Structural)]
pub enum IntErrorKind {
    Empty,
    InvalidDigit,
    PosOverflow,
}

pub open spec fn is_digit(c: char) -> bool {
    '0' <= c <= '9'
}

pub open spec fn digit_value(c: char) -> nat {
    (c as u32 - 48) as nat
}

/// Reads the digits `ds` left to right onto `acc`: the first character that is no digit,
/// or the first digit that takes the value above `limit`, decides the error.
pub open spec fn parse_digits(ds: Seq<char>, acc: nat, limit: nat) -> Result<nat, IntErrorKind>
    decreases ds.len(),
{
    if ds.len() == 0 {
        Ok(acc)
    } else if !is_digit(ds[0]) {
        Err(IntErrorKind::InvalidDigit)
    } else if acc * 10 + digit_value(ds[0]) > limit {
        Err(IntErrorKind::PosOverflow)
    } else {
        parse_digits(ds.drop_first(), acc * 10 + digit_value(ds[0]), limit)
    }
}

/// What `str::parse` gives for an unsigned integer type whose largest value is `limit`:
/// an optional `+`, then one or more decimal digits.
pub open spec fn parse_unsigned(s: Seq<char>, limit: nat) -> Result<nat, IntErrorKind> {
    if s.len() == 0 {
        Err(IntErrorKind::Empty)
    } else if s.len() == 1 && (s[0] == '+' || s[0] == '-') {
        Err(IntErrorKind::InvalidDigit)
    } else if s[0] == '+' {
        parse_digits(s.drop_first(), 0, limit)
    } else {
        parse_digits(s, 0, limit)
    }
}

/// The text of a `ParseIntError` of the given kind.
pub open spec fn int_error_text(kind: IntErrorKind) -> Seq<char> {
    match kind {
        IntErrorKind::Empty => "cannot parse integer from empty string"@,
        IntErrorKind::InvalidDigit => "invalid digit found in string"@,
        IntErrorKind::PosOverflow => "number too large to fit in target type"@,
    }
}

proof fn lemma_digit_char(d: nat)
    requires
        d < 10,
    ensures
        is_digit(digit_char(d)),
        digit_value(digit_char(d)) == d,
{
    assert(((d + 48) as u32) as char as u32 == (d + 48) as u32);
}

proof fn lemma_decimal_first_digit(n: nat)
    ensures
        decimal(n).len() > 0,
        is_digit(decimal(n)[0]),
    decreases n,
{
    if n < 10 {
        lemma_digit_char(n);
    } else {
        lemma_decimal_first_digit(n / 10);
    }
}

proof fn lemma_parse_digits_append(a: Seq<char>, b: Seq<char>, acc: nat, limit: nat)
    requires
        parse_digits(a, acc, limit) is Ok,
    ensures
        parse_digits(a + b, acc, limit) == parse_digits(b, parse_digits(a, acc, limit)->Ok_0, limit),
    decreases a.len(),
{
    if a.len() > 0 {
        assert((a + b)[0] == a[0]);
        assert((a + b).drop_first() =~= a.drop_first() + b);
        lemma_parse_digits_append(a.drop_first(), b, acc * 10 + digit_value(a[0]), limit);
    } else {
        assert(a + b =~= b);
    }
}

proof fn lemma_decimal_digits(n: nat, limit: nat)
    requires
        n <= limit,
    ensures
        parse_digits(decimal(n), 0, limit) == Ok::<nat, IntErrorKind>(n),
    decreases n,
{
    if n < 10 {
        lemma_digit_char(n);
        let ds = decimal(n);
        assert(ds == seq![digit_char(n)]);
        assert(ds.drop_first() =~= Seq::<char>::empty());
        assert(parse_digits(ds.drop_first(), n, limit) == Ok::<nat, IntErrorKind>(n));
        assert(parse_digits(ds, 0, limit) == parse_digits(ds.drop_first(), n, limit));
    } else {
        let d = n % 10;
        lemma_digit_char(d);
        lemma_decimal_digits(n / 10, limit);
        lemma_parse_digits_append(decimal(n / 10), seq![digit_char(d)], 0, limit);
        assert(decimal(n) =~= decimal(n / 10) + seq![digit_char(d)]);
        assert((n / 10) * 10 + d == n) by (nonlinear_arith)
            requires
                d == n % 10,
        ;
        let last = seq![digit_char(d)];
        assert(last.drop_first() =~= Seq::<char>::empty());
        assert(parse_digits(last.drop_first(), n, limit) == Ok::<nat, IntErrorKind>(n));
        assert(parse_digits(last, n / 10, limit) == parse_digits(last.drop_first(), n, limit));
    }
}

/// A number written in decimal reads back as the number, wherever it fits the limit.
pub proof fn lemma_decimal_parses_back(n: nat, limit: nat)
    requires
        n <= limit,
    ensures
        parse_unsigned(decimal(n), limit) == Ok::<nat, IntErrorKind>(n),
{
    lemma_decimal_first_digit(n);
    lemma_decimal_digits(n, limit);
}

impl IntErrorKind {
    /// The message that `ParseIntError` displays for this kind.
    pub fn text(&self) -> (s: String)
        ensures
            s@ == int_error_text(*self),
    {
        match self {
            IntErrorKind::Empty => "cannot parse integer from empty string".to_string(),
            IntErrorKind::InvalidDigit => "invalid digit found in string".to_string(),
            IntErrorKind::PosOverflow => "number too large to fit in target type".to_string(),
        }
    }
}

/// Parses `s` as an unsigned integer no greater than `limit`.
pub fn parse_unsigned_chars(s: &Vec<char>, limit: u64) -> (r: Result<u64, IntErrorKind>)
    ensures
        match r {
            Ok(v) => v <= limit && parse_unsigned(s@, limit as nat) == Ok::<nat, IntErrorKind>(v as nat),
            Err(e) => parse_unsigned(s@, limit as nat) == Err::<nat, IntErrorKind>(e),
        },
{
    let n = s.len();
    if n == 0 {
        return Err(IntErrorKind::Empty);
    }
    if n == 1 && (s[0] == '+' || s[0] == '-') {
        return Err(IntErrorKind::InvalidDigit);
    }
    let mut k: usize = if s[0] == '+' { 1 } else { 0 };
    let ghost ds = s@.skip(k as int);
    assert(ds =~= (if s@[0] == '+' { s@.drop_first() } else { s@ }));
    let mut acc: u64 = 0;
    assert(parse_unsigned(s@, limit as nat) == parse_digits(ds, 0, limit as nat));
    while k < n
        invariant
            0 <= k <= n,
            n == s@.len(),
            acc <= limit,
            parse_unsigned(s@, limit as nat) == parse_digits(ds, 0, limit as nat),
            parse_digits(ds, 0, limit as nat) == parse_digits(s@.skip(k as int), acc as nat, limit as nat),
        decreases n - k,
    {
        let c = s[k];
        let ghost rest = s@.skip(k as int);
        assert(rest[0] == c);
        assert(rest.drop_first() =~= s@.skip(k + 1));
        if !('0' <= c && c <= '9') {
            return Err(IntErrorKind::InvalidDigit);
        }
        let d: u64 = ((c as u32) - 48) as u64;
        let v: u128 = (acc as u128) * 10 + (d as u128);
        if v > limit as u128 {
            return Err(IntErrorKind::PosOverflow);
        }
        acc = v as u64;
        k = k + 1;
    }
    assert(s@.skip(n as int).len() == 0);
    Ok(acc)
}


/// A sequence of strings as text.
pub open spec fn texts(v: Seq<String>) -> Seq<Seq<char>> {
    v.map_values(|s: String| s@)
}

/// Appends the string `s` to `args`.
pub fn push_text(args: &mut Vec<String>, s: String)
    ensures
        texts(final(args)@) == texts(old(args)@).push(s@),
{
    args.push(s);
    assert(texts(args@) =~= texts(old(args)@).push(s@));
}

/// Appends a copy of `s` to `args`.
pub fn push_str(args: &mut Vec<String>, s: &str)
    ensures
        texts(final(args)@) == texts(old(args)@).push(s@),
{
    push_text(args, s.to_owned());
}

} // verus!
