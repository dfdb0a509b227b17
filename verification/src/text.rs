//! Character-level text handling with exact specifications.
use vstd::prelude::*;

verus! {

/// The Unicode `White_Space` property: the characters that `char::is_whitespace`,
/// `str::trim` and `str::split_whitespace` treat as whitespace.
pub open spec fn is_white_space(c: char) -> bool {
    let u = c as u32;
    ||| 0x9 <= u <= 0xD
    ||| u == 0x20
    ||| u == 0x85
    ||| u == 0xA0
    ||| u == 0x1680
    ||| 0x2000 <= u <= 0x200A
    ||| u == 0x2028
    ||| u == 0x2029
    ||| u == 0x202F
    ||| u == 0x205F
    ||| u == 0x3000
}

/// `char::is_whitespace`, which std documents as the Unicode `White_Space` property.
#[verifier::external_body]
fn white_space(c: char) -> (b: bool)
    ensures
        b == is_white_space(c),
{
    c.is_whitespace()
}

/// Collects characters into a `String` (std's `FromIterator<&char> for String`).
#[verifier::external_body]
pub(crate) fn string_from(v: &Vec<char>) -> (s: String)
    ensures
        s@ == v@,
{
    v.iter().collect()
}

/// The characters of `s`, in order.
pub fn chars_of(s: &str) -> (v: Vec<char>)
    ensures
        v@ == s@,
{
    let mut v: Vec<char> = Vec::new();
    for c in it: s.chars()
        invariant
            v@ == it.seq().take(it.index() as int),
            it.seq() == s@,
    {
        v.push(c);
    }
    v
}

/// `s` without its leading whitespace.
pub open spec fn trim_start(s: Seq<char>) -> Seq<char>
    decreases s.len(),
{
    if s.len() > 0 && is_white_space(s[0]) {
        trim_start(s.drop_first())
    } else {
        s
    }
}

/// `s` without its trailing whitespace.
pub open spec fn trim_end(s: Seq<char>) -> Seq<char>
    decreases s.len(),
{
    if s.len() > 0 && is_white_space(s.last()) {
        trim_end(s.drop_last())
    } else {
        s
    }
}

/// `s` without leading and trailing whitespace, as `str::trim` gives it.
pub open spec fn trim(s: Seq<char>) -> Seq<char> {
    trim_end(trim_start(s))
}

proof fn lemma_trim_start_skip(s: Seq<char>, i: int)
    requires
        0 <= i < s.len(),
        is_white_space(s[i]),
    ensures
        trim_start(s.skip(i)) == trim_start(s.skip(i + 1)),
{
    assert(s.skip(i).drop_first() =~= s.skip(i + 1));
}

proof fn lemma_trim_end_take(s: Seq<char>, j: int)
    requires
        0 < j <= s.len(),
        is_white_space(s[j - 1]),
    ensures
        trim_end(s.take(j)) == trim_end(s.take(j - 1)),
{
    assert(s.take(j).drop_last() =~= s.take(j - 1));
}

/// The index of the first character of `s` at or after `from` that is not whitespace,
/// or `s.len()`.
fn skip_white_space(s: &Vec<char>, from: usize) -> (i: usize)
    requires
        from <= s.len(),
    ensures
        from <= i <= s.len(),
        trim_start(s@.skip(from as int)) == s@.skip(i as int),
        forall|k: int| from <= k < i ==> is_white_space(#[trigger] s@[k]),
        i < s.len() ==> !is_white_space(s@[i as int]),
{
    let mut i = from;
    while i < s.len() && white_space(s[i])
        invariant
            from <= i <= s.len(),
            trim_start(s@.skip(from as int)) == trim_start(s@.skip(i as int)),
            forall|k: int| from <= k < i ==> is_white_space(#[trigger] s@[k]),
        decreases s.len() - i,
    {
        proof {
            lemma_trim_start_skip(s@, i as int);
        }
        i = i + 1;
    }
    i
}

/// `s` with leading and trailing whitespace removed (`str::trim`).
pub fn trim_chars(s: &Vec<char>) -> (t: Vec<char>)
    ensures
        t@ == trim(s@),
{
    let start = skip_white_space(s, 0);
    assert(s@.skip(0) =~= s@);
    let mut end = s.len();
    assert(s@.skip(start as int).take(s.len() - start) =~= s@.skip(start as int));
    while end > start && white_space(s[end - 1])
        invariant
            start <= end <= s.len(),
            trim_end(s@.skip(start as int)) == trim_end(s@.skip(start as int).take(end - start)),
        decreases end,
    {
        proof {
            let u = s@.skip(start as int);
            lemma_trim_end_take(u, end - start);
            assert(u.take(end - start - 1) =~= u.take((end - 1) - start));
        }
        end = end - 1;
    }
    let ghost u = s@.skip(start as int).take(end - start);
    assert(trim_end(u) == u) by {
        if u.len() > 0 {
            assert(u.last() == s@[end - 1]);
        }
    }
    let mut t: Vec<char> = Vec::new();
    let mut k = start;
    while k < end
        invariant
            start <= k <= end <= s.len(),
            t@ == s@.subrange(start as int, k as int),
        decreases end - k,
    {
        t.push(s[k]);
        assert(t@ =~= s@.subrange(start as int, k + 1));
        k = k + 1;
    }
    assert(t@ =~= u);
    t
}


/// The length of the run of non-whitespace characters that starts `s`.
pub open spec fn word_len(s: Seq<char>) -> nat
    decreases s.len(),
{
    if s.len() > 0 && !is_white_space(s[0]) {
        1 + word_len(s.drop_first())
    } else {
        0
    }
}

pub proof fn lemma_word_len_bound(s: Seq<char>)
    ensures
        word_len(s) <= s.len(),
        s.len() > 0 && !is_white_space(s[0]) ==> word_len(s) >= 1,
    decreases s.len(),
{
    if s.len() > 0 && !is_white_space(s[0]) {
        lemma_word_len_bound(s.drop_first());
    }
}

/// The maximal runs of non-whitespace characters of `s`, in order: what
/// `str::split_whitespace` yields.
pub open spec fn words(s: Seq<char>) -> Seq<Seq<char>>
    decreases s.len(),
{
    if s.len() == 0 {
        seq![]
    } else if is_white_space(s[0]) {
        words(s.drop_first())
    } else {
        let n = word_len(s);
        proof {
            lemma_word_len_bound(s);
        }
        seq![s.take(n as int)] + words(s.skip(n as int))
    }
}

/// `word_len` of a run of non-whitespace characters that ends at whitespace or at the end.
proof fn lemma_word_len_exact(s: Seq<char>, n: int)
    requires
        0 <= n <= s.len(),
        forall|k: int| 0 <= k < n ==> !is_white_space(#[trigger] s[k]),
        n < s.len() ==> is_white_space(s[n]),
    ensures
        word_len(s) == n,
    decreases n,
{
    if n > 0 {
        let t = s.drop_first();
        assert forall|k: int| 0 <= k < n - 1 implies !is_white_space(#[trigger] t[k]) by {
            assert(t[k] == s[k + 1]);
        }
        lemma_word_len_exact(t, n - 1);
    }
}

/// The words of `s`, as `str::split_whitespace` gives them.
pub fn split_whitespace(s: &Vec<char>) -> (r: Vec<Vec<char>>)
    ensures
        r@.map_values(|w: Vec<char>| w@) == words(s@),
{
    let mut r: Vec<Vec<char>> = Vec::new();
    let mut i: usize = 0;
    assert(s@.skip(0) =~= s@);
    while i < s.len()
        invariant
            i <= s.len(),
            words(s@) == r@.map_values(|w: Vec<char>| w@) + words(s@.skip(i as int)),
        decreases s.len() - i,
    {
        let ghost u = s@.skip(i as int);
        if white_space(s[i]) {
            assert(u.drop_first() =~= s@.skip(i + 1));
            i = i + 1;
        } else {
            let mut j = i + 1;
            while j < s.len() && !white_space(s[j])
                invariant
                    i < j <= s.len(),
                    forall|k: int| i <= k < j ==> !is_white_space(#[trigger] s@[k]),
                decreases s.len() - j,
            {
                j = j + 1;
            }
            let mut w: Vec<char> = Vec::new();
            let mut k = i;
            while k < j
                invariant
                    i <= k <= j <= s.len(),
                    w@ == s@.subrange(i as int, k as int),
                decreases j - k,
            {
                w.push(s[k]);
                assert(w@ =~= s@.subrange(i as int, k + 1));
                k = k + 1;
            }
            proof {
                assert forall|k: int| 0 <= k < j - i implies !is_white_space(#[trigger] u[k]) by {
                    assert(u[k] == s@[i + k]);
                }
                lemma_word_len_exact(u, j - i);
                assert(u.take(j - i) =~= w@);
                assert(u.skip(j - i) =~= s@.skip(j as int));
            }
            let ghost before = r@.map_values(|w: Vec<char>| w@);
            r.push(w);
            assert(r@.map_values(|w: Vec<char>| w@) =~= before.push(u.take(j - i)));
            i = j;
        }
    }
    assert(s@.skip(i as int) =~= Seq::<char>::empty());
    assert(r@.map_values(|w: Vec<char>| w@) =~= r@.map_values(|w: Vec<char>| w@) + Seq::<Seq<char>>::empty());
    r
}

/// The length of the piece of `s` before the first `sep` (all of `s` if there is none).
pub open spec fn piece_len(s: Seq<char>, sep: char) -> nat
    decreases s.len(),
{
    if s.len() > 0 && s[0] != sep {
        1 + piece_len(s.drop_first(), sep)
    } else {
        0
    }
}

pub proof fn lemma_piece_len_bound(s: Seq<char>, sep: char)
    ensures
        piece_len(s, sep) <= s.len(),
        piece_len(s, sep) < s.len() ==> s[piece_len(s, sep) as int] == sep,
        forall|k: int| 0 <= k < piece_len(s, sep) ==> s[k] != sep,
    decreases s.len(),
{
    if s.len() > 0 && s[0] != sep {
        lemma_piece_len_bound(s.drop_first(), sep);
        let t = s.drop_first();
        assert forall|k: int| 0 <= k < piece_len(s, sep) implies s[k] != sep by {
            if k > 0 {
                assert(s[k] == t[k - 1]);
            }
        }
    }
}

proof fn lemma_piece_len_exact(s: Seq<char>, sep: char, n: int)
    requires
        0 <= n <= s.len(),
        forall|k: int| 0 <= k < n ==> #[trigger] s[k] != sep,
        n < s.len() ==> s[n] == sep,
    ensures
        piece_len(s, sep) == n,
    decreases n,
{
    if n > 0 {
        let t = s.drop_first();
        assert forall|k: int| 0 <= k < n - 1 implies #[trigger] t[k] != sep by {
            assert(t[k] == s[k + 1]);
        }
        lemma_piece_len_exact(t, sep, n - 1);
    }
}

/// The pieces of `s` between occurrences of `sep`, as `str::split` yields them:
/// there is always at least one, and pieces may be empty.
pub open spec fn split_on(s: Seq<char>, sep: char) -> Seq<Seq<char>>
    decreases s.len(),
{
    let n = piece_len(s, sep);
    proof {
        lemma_piece_len_bound(s, sep);
    }
    if n >= s.len() {
        seq![s]
    } else {
        seq![s.take(n as int)] + split_on(s.skip((n + 1) as int), sep)
    }
}

/// The pieces of `s` between occurrences of `sep` (`str::split` with a char).
pub fn split_chars(s: &Vec<char>, sep: char) -> (r: Vec<Vec<char>>)
    ensures
        r@.map_values(|w: Vec<char>| w@) == split_on(s@, sep),
{
    let mut r: Vec<Vec<char>> = Vec::new();
    let mut i: usize = 0;
    assert(s@.skip(0) =~= s@);
    loop
        invariant
            i <= s.len(),
            split_on(s@, sep) == r@.map_values(|w: Vec<char>| w@) + split_on(s@.skip(i as int), sep),
        decreases s.len() - i,
    {
        let ghost u = s@.skip(i as int);
        let mut j = i;
        while j < s.len() && s[j] != sep
            invariant
                i <= j <= s.len(),
                forall|k: int| i <= k < j ==> #[trigger] s@[k] != sep,
            decreases s.len() - j,
        {
            j = j + 1;
        }
        let mut w: Vec<char> = Vec::new();
        let mut k = i;
        while k < j
            invariant
                i <= k <= j <= s.len(),
                w@ == s@.subrange(i as int, k as int),
            decreases j - k,
        {
            w.push(s[k]);
            assert(w@ =~= s@.subrange(i as int, k + 1));
            k = k + 1;
        }
        proof {
            assert forall|k: int| 0 <= k < j - i implies #[trigger] u[k] != sep by {
                assert(u[k] == s@[i + k]);
            }
            lemma_piece_len_exact(u, sep, j - i);
        }
        let ghost before = r@.map_values(|w: Vec<char>| w@);
        r.push(w);
        if j == s.len() {
            assert(u =~= w@);
            assert(r@.map_values(|w: Vec<char>| w@) =~= before.push(u));
            assert(split_on(s@, sep) =~= r@.map_values(|w: Vec<char>| w@));
            return r;
        }
        assert(u.take(j - i) =~= w@);
        assert(u.skip(j - i + 1) =~= s@.skip(j + 1));
        assert(r@.map_values(|w: Vec<char>| w@) =~= before.push(u.take(j - i)));
        i = j + 1;
    }
}

/// Whether `s` begins with `prefix`.
pub open spec fn starts_with(s: Seq<char>, prefix: Seq<char>) -> bool {
    prefix.len() <= s.len() && s.take(prefix.len() as int) == prefix
}

/// Whether `s` begins with `prefix` (`str::starts_with`).
pub fn has_prefix(s: &Vec<char>, prefix: &Vec<char>) -> (b: bool)
    ensures
        b == starts_with(s@, prefix@),
{
    if prefix.len() > s.len() {
        return false;
    }
    let mut k: usize = 0;
    while k < prefix.len()
        invariant
            k <= prefix.len() <= s.len(),
            forall|m: int| 0 <= m < k ==> s@[m] == prefix@[m],
        decreases prefix.len() - k,
    {
        if s[k] != prefix[k] {
            assert(s@.take(prefix.len() as int)[k as int] != prefix@[k as int]);
            return false;
        }
        k = k + 1;
    }
    assert(s@.take(prefix.len() as int) =~= prefix@);
    true
}

/// Whether `needle` occurs in `s`.
pub open spec fn contains(s: Seq<char>, needle: Seq<char>) -> bool {
    exists|i: int| 0 <= i && i + needle.len() <= s.len() && #[trigger] s.subrange(i, i + needle.len()) == needle
}

/// Whether `needle` occurs in `s` (`str::contains` with a string pattern).
pub fn has_substring(s: &Vec<char>, needle: &Vec<char>) -> (b: bool)
    ensures
        b == contains(s@, needle@),
{
    if needle.len() > s.len() {
        return false;
    }
    let mut i: usize = 0;
    while i <= s.len() - needle.len()
        invariant
            needle.len() <= s.len(),
            i <= s.len() - needle.len() + 1,
            forall|p: int| 0 <= p < i ==> #[trigger] s@.subrange(p, p + needle.len()) != needle@,
        decreases s.len() - i,
    {
        let mut k: usize = 0;
        let mut same = true;
        while k < needle.len()
            invariant
                i + needle.len() <= s.len(),
                k <= needle.len(),
                same == (forall|m: int| 0 <= m < k ==> s@[i + m] == needle@[m]),
            decreases needle.len() - k,
        {
            if s[i + k] != needle[k] {
                same = false;
            }
            k = k + 1;
        }
        if same {
            assert(s@.subrange(i as int, i + needle.len()) =~= needle@);
            return true;
        }
        assert(s@.subrange(i as int, i + needle.len()) != needle@) by {
            let m = choose|m: int| 0 <= m < needle.len() && s@[i + m] != needle@[m];
            assert(s@.subrange(i as int, i + needle.len())[m] != needle@[m]);
        }
        i = i + 1;
    }
    assert forall|p: int| 0 <= p && p + needle.len() <= s.len() implies #[trigger] s@.subrange(p, p + needle.len()) != needle@ by {
    }
    false
}


/// The decimal digit character for `d` (0 through 9).
pub open spec fn digit_char(d: int) -> char {
    if d == 0 { '0' }
    else if d == 1 { '1' }
    else if d == 2 { '2' }
    else if d == 3 { '3' }
    else if d == 4 { '4' }
    else if d == 5 { '5' }
    else if d == 6 { '6' }
    else if d == 7 { '7' }
    else if d == 8 { '8' }
    else { '9' }
}

/// Whether `c` is one of the ASCII digits `0`..`9`.
pub open spec fn is_digit(c: char) -> bool {
    '0' <= c <= '9'
}

/// The value of the digit character `c`.
pub open spec fn digit_value(c: char) -> nat {
    (c as u32 - '0' as u32) as nat
}

/// The decimal representation of `n`, without sign or leading zeros (as `Display` prints integers).
pub open spec fn decimal(n: nat) -> Seq<char>
    decreases n,
{
    if n < 10 {
        seq![digit_char(n as int)]
    } else {
        decimal(n / 10).push(digit_char((n % 10) as int))
    }
}

/// `n` in decimal, padded with a leading zero to at least two digits (`{:02}`).
pub open spec fn two_digits(n: nat) -> Seq<char> {
    if n < 10 {
        seq!['0', digit_char(n as int)]
    } else {
        decimal(n)
    }
}

fn digit(d: u64) -> (c: char)
    requires
        d < 10,
    ensures
        c == digit_char(d as int),
{
    if d == 0 { '0' }
    else if d == 1 { '1' }
    else if d == 2 { '2' }
    else if d == 3 { '3' }
    else if d == 4 { '4' }
    else if d == 5 { '5' }
    else if d == 6 { '6' }
    else if d == 7 { '7' }
    else if d == 8 { '8' }
    else { '9' }
}

/// Appends the decimal digits of `n` to `out`.
pub fn push_decimal(out: &mut Vec<char>, n: u64)
    ensures
        final(out)@ == old(out)@ + decimal(n as nat),
    decreases n,
{
    if n >= 10 {
        push_decimal(out, n / 10);
    }
    let ghost before = out@;
    out.push(digit(n % 10));
    proof {
        if n < 10 {
            assert(before =~= old(out)@);
            assert(out@ =~= old(out)@ + decimal(n as nat));
        } else {
            assert(out@ =~= old(out)@ + decimal(n as nat));
        }
    }
}

/// Appends `n` to `out` padded to two digits.
pub fn push_two_digits(out: &mut Vec<char>, n: u64)
    ensures
        final(out)@ == old(out)@ + two_digits(n as nat),
{
    if n < 10 {
        out.push('0');
        out.push(digit(n));
        assert(out@ =~= old(out)@ + two_digits(n as nat));
    } else {
        push_decimal(out, n);
    }
}

/// Appends every character of `s` to `out`.
pub fn push_all(out: &mut Vec<char>, s: &Vec<char>)
    ensures
        final(out)@ == old(out)@ + s@,
{
    let mut k: usize = 0;
    while k < s.len()
        invariant
            k <= s.len(),
            out@ == old(out)@ + s@.take(k as int),
        decreases s.len() - k,
    {
        out.push(s[k]);
        assert(s@.take(k + 1) =~= s@.take(k as int).push(s@[k as int]));
        k = k + 1;
    }
    assert(s@.take(s.len() as int) =~= s@);
}

/// Appends the characters of `s` to `out`.
pub fn push_str(out: &mut Vec<char>, s: &str)
    ensures
        final(out)@ == old(out)@ + s@,
{
    let v = chars_of(s);
    push_all(out, &v);
}

/// Whether every character of `s` is an ASCII digit.
pub open spec fn all_digits(s: Seq<char>) -> bool {
    forall|i: int| 0 <= i < s.len() ==> is_digit(#[trigger] s[i])
}

/// The number that the digit sequence `s` denotes.
pub open spec fn digits_value(s: Seq<char>) -> nat
    decreases s.len(),
{
    if s.len() == 0 {
        0
    } else {
        10 * digits_value(s.drop_last()) + digit_value(s.last())
    }
}

/// The digits that follow an optional leading `+`.
pub open spec fn unsigned_body(s: Seq<char>) -> Seq<char> {
    if s.len() > 0 && s[0] == '+' {
        s.drop_first()
    } else {
        s
    }
}

/// Whether `s` is accepted by `str::parse::<u32>`: an optional `+` followed by one or
/// more digits whose value fits in a `u32`.
pub open spec fn is_u32_text(s: Seq<char>) -> bool {
    let body = unsigned_body(s);
    &&& body.len() > 0
    &&& all_digits(body)
    &&& digits_value(body) <= u32::MAX
}

/// What `ParseIntError`'s `Display` prints for a failed `str::parse::<u32>` of `s`.
pub uninterp spec fn u32_parse_error_text(s: Seq<char>) -> Seq<char>;

/// `str::parse::<u32>`: std documents that it accepts exactly an optional `+` followed by
/// digits whose value fits; the error's text is named, not stated.
#[verifier::external_body]
pub(crate) fn parse_u32(s: &str) -> (r: Result<u32, String>)
    ensures
        r is Ok <==> is_u32_text(s@),
        r matches Ok(v) ==> v == digits_value(unsigned_body(s@)),
        r matches Err(e) ==> e@ == u32_parse_error_text(s@),
{
    match s.parse::<u32>() {
        Ok(v) => Ok(v),
        Err(e) => Err(e.to_string()),
    }
}

proof fn lemma_digit_char(d: int)
    requires
        0 <= d < 10,
    ensures
        is_digit(digit_char(d)),
        digit_value(digit_char(d)) == d,
        digit_char(d) != '+',
{
}

/// The digits of `decimal(n)` read back give `n`.
pub proof fn lemma_decimal_digits(n: nat)
    ensures
        decimal(n).len() > 0,
        all_digits(decimal(n)),
        digits_value(decimal(n)) == n,
        decimal(n)[0] != '+',
    decreases n,
{
    lemma_digit_char((n % 10) as int);
    if n < 10 {
        assert(decimal(n).drop_last() =~= Seq::<char>::empty());
        assert(digits_value(decimal(n)) == 10 * digits_value(decimal(n).drop_last()) + digit_value(decimal(n).last()));
    } else {
        lemma_decimal_digits(n / 10);
        let d = decimal(n / 10);
        let e = d.push(digit_char((n % 10) as int));
        assert(e.drop_last() =~= d);
        assert forall|i: int| 0 <= i < e.len() implies is_digit(#[trigger] e[i]) by {
            if i < d.len() {
                assert(e[i] == d[i]);
            }
        }
        assert(e[0] == d[0]);
        assert(decimal(n) == e);
        assert(e.last() == digit_char((n % 10) as int));
        assert(digits_value(e) == 10 * digits_value(d) + digit_value(e.last()));
        assert(n == 10 * (n / 10) + n % 10);
    }
}

/// Formatting a `u32` in decimal and parsing it back with `str::parse::<u32>` gives the
/// same number.
pub proof fn lemma_u32_decimal_round_trip(n: u32)
    ensures
        is_u32_text(decimal(n as nat)),
        digits_value(unsigned_body(decimal(n as nat))) == n,
{
    lemma_decimal_digits(n as nat);
}


/// Whether two strings hold the same characters.
pub fn same_text(a: &str, b: &str) -> (r: bool)
    ensures
        r == (a@ == b@),
{
    let x = chars_of(a);
    let y = chars_of(b);
    if x.len() != y.len() {
        return false;
    }
    let mut k: usize = 0;
    while k < x.len()
        invariant
            x@ == a@,
            y@ == b@,
            x.len() == y.len(),
            k <= x.len(),
            forall|m: int| 0 <= m < k ==> x@[m] == y@[m],
        decreases x.len() - k,
    {
        if x[k] != y[k] {
            assert(x@[k as int] != y@[k as int]);
            return false;
        }
        k = k + 1;
    }
    assert(x@ =~= y@);
    true
}

/// Whether `c` is an ASCII letter or digit.
pub open spec fn is_ascii_alphanumeric(c: char) -> bool {
    ('0' <= c <= '9') || ('a' <= c <= 'z') || ('A' <= c <= 'Z')
}

/// Whether every character of `s` is an ASCII letter or digit.
pub open spec fn all_ascii_alphanumeric(s: Seq<char>) -> bool {
    forall|i: int| 0 <= i < s.len() ==> is_ascii_alphanumeric(#[trigger] s[i])
}



/// The lowercase hexadecimal digit for `d` (0 through 15).
pub open spec fn hex_char(d: int) -> char {
    if d < 10 {
        digit_char(d)
    } else if d == 10 {
        'a'
    } else if d == 11 {
        'b'
    } else if d == 12 {
        'c'
    } else if d == 13 {
        'd'
    } else if d == 14 {
        'e'
    } else {
        'f'
    }
}

/// The value of a hexadecimal digit (either case), if `c` is one.
pub open spec fn hex_value(c: char) -> Option<nat> {
    if '0' <= c <= '9' {
        Some((c as u32 - '0' as u32) as nat)
    } else if 'a' <= c <= 'f' {
        Some((c as u32 - 'a' as u32 + 10) as nat)
    } else if 'A' <= c <= 'F' {
        Some((c as u32 - 'A' as u32 + 10) as nat)
    } else {
        None
    }
}

/// How one character is written inside a JSON string: `"` and `\` are escaped,
/// backspace, form feed, newline, carriage return and tab get their short escapes,
/// the other characters below U+0020 are written `\u00XX`; everything else stands as
/// it is.
pub open spec fn json_char(c: char) -> Seq<char> {
    if c == '"' {
        seq!['\\', '"']
    } else if c == '\\' {
        seq!['\\', '\\']
    } else if c == '\u{8}' {
        seq!['\\', 'b']
    } else if c == '\u{c}' {
        seq!['\\', 'f']
    } else if c == '\n' {
        seq!['\\', 'n']
    } else if c == '\r' {
        seq!['\\', 'r']
    } else if c == '\t' {
        seq!['\\', 't']
    } else if (c as u32) < 0x20 {
        seq!['\\', 'u', '0', '0', hex_char((c as u32 / 16) as int), hex_char((c as u32 % 16) as int)]
    } else {
        seq![c]
    }
}

/// The JSON string encoding of `s`, without the surrounding quotes.
pub open spec fn json_escape(s: Seq<char>) -> Seq<char>
    decreases s.len(),
{
    if s.len() == 0 {
        seq![]
    } else {
        json_char(s[0]) + json_escape(s.drop_first())
    }
}

/// The character a one-letter JSON escape (`\"`, `\\`, `\/`, `\b`, `\f`, `\n`, `\r`,
/// `\t`) stands for.
pub open spec fn short_escape(e: char) -> Option<char> {
    if e == '"' {
        Some('"')
    } else if e == '\\' {
        Some('\\')
    } else if e == '/' {
        Some('/')
    } else if e == 'b' {
        Some('\u{8}')
    } else if e == 'f' {
        Some('\u{c}')
    } else if e == 'n' {
        Some('\n')
    } else if e == 'r' {
        Some('\r')
    } else if e == 't' {
        Some('\t')
    } else {
        None
    }
}

/// The value of four hexadecimal digits, if they are digits.
pub open spec fn hex4(s: Seq<char>) -> Option<nat>
    recommends
        s.len() >= 4,
{
    match (hex_value(s[0]), hex_value(s[1]), hex_value(s[2]), hex_value(s[3])) {
        (Some(a), Some(b), Some(c), Some(d)) => Some(4096 * a + 256 * b + 16 * c + d),
        _ => None,
    }
}

/// The text that the contents of a JSON string (between its quotes) stand for, or
/// `None` when they are not valid JSON: a raw `"` or control character, or an unknown
/// or cut-off escape. A `\uXXXX` escape is read as one character; surrogate pairs, which
/// `json_escape` never writes, are not read.
pub open spec fn json_decode(s: Seq<char>) -> Option<Seq<char>>
    decreases s.len(),
{
    if s.len() == 0 {
        Some(seq![])
    } else if s[0] == '\\' {
        if s.len() < 2 {
            None
        } else {
            match short_escape(s[1]) {
                Some(c) => match json_decode(s.skip(2)) {
                    Some(r) => Some(seq![c] + r),
                    None => None,
                },
                None => if s[1] == 'u' && s.len() >= 6 {
                    match hex4(s.subrange(2, 6)) {
                        Some(v) => if v < 0xD800 || 0xE000 <= v {
                            match json_decode(s.skip(6)) {
                                Some(r) => Some(seq![(v as u32) as char] + r),
                                None => None,
                            }
                        } else {
                            None
                        },
                        None => None,
                    }
                } else {
                    None
                },
            }
        }
    } else if s[0] == '"' || (s[0] as u32) < 0x20 {
        None
    } else {
        match json_decode(s.drop_first()) {
            Some(r) => Some(seq![s[0]] + r),
            None => None,
        }
    }
}

proof fn lemma_json_escape_push(s: Seq<char>, c: char)
    ensures
        json_escape(s.push(c)) == json_escape(s) + json_char(c),
    decreases s.len(),
{
    if s.len() == 0 {
        assert(s.push(c).drop_first() =~= Seq::<char>::empty());
        assert(s.push(c)[0] == c);
        assert(json_escape(Seq::<char>::empty()) == Seq::<char>::empty());
        assert(json_escape(s) == Seq::<char>::empty());
        assert(json_escape(s.push(c)) == json_char(c) + json_escape(Seq::<char>::empty()));
        assert(json_escape(s.push(c)) =~= json_escape(s) + json_char(c));
    } else {
        lemma_json_escape_push(s.drop_first(), c);
        assert(s.push(c).drop_first() =~= s.drop_first().push(c));
        assert(s.push(c)[0] == s[0]);
        assert(json_escape(s.push(c)) == json_char(s[0]) + json_escape(s.drop_first().push(c)));
        assert(json_escape(s) == json_char(s[0]) + json_escape(s.drop_first()));
        assert(json_escape(s.push(c)) =~= json_escape(s) + json_char(c));
    }
}

fn hex_digit(d: u32) -> (c: char)
    requires
        d < 16,
    ensures
        c == hex_char(d as int),
{
    if d < 10 {
        digit(d as u64)
    } else if d == 10 {
        'a'
    } else if d == 11 {
        'b'
    } else if d == 12 {
        'c'
    } else if d == 13 {
        'd'
    } else if d == 14 {
        'e'
    } else {
        'f'
    }
}

/// Appends `json_char(c)` to `out`.
fn push_json_char(out: &mut Vec<char>, c: char)
    ensures
        final(out)@ == old(out)@ + json_char(c),
{
    let ghost before = out@;
    if c == '"' {
        out.push('\\');
        out.push('"');
    } else if c == '\\' {
        out.push('\\');
        out.push('\\');
    } else if c == '\u{8}' {
        out.push('\\');
        out.push('b');
    } else if c == '\u{c}' {
        out.push('\\');
        out.push('f');
    } else if c == '\n' {
        out.push('\\');
        out.push('n');
    } else if c == '\r' {
        out.push('\\');
        out.push('r');
    } else if c == '\t' {
        out.push('\\');
        out.push('t');
    } else if (c as u32) < 0x20 {
        out.push('\\');
        out.push('u');
        out.push('0');
        out.push('0');
        out.push(hex_digit((c as u32) / 16));
        out.push(hex_digit((c as u32) % 16));
    } else {
        out.push(c);
    }
    assert(out@ =~= before + json_char(c));
}

/// Appends the JSON string encoding of `s` (without quotes) to `out`.
pub fn push_json_escaped(out: &mut Vec<char>, s: &Vec<char>)
    ensures
        final(out)@ == old(out)@ + json_escape(s@),
{
    let mut k: usize = 0;
    assert(s@.take(0) =~= Seq::<char>::empty());
    assert(out@ =~= old(out)@ + json_escape(s@.take(0)));
    while k < s.len()
        invariant
            k <= s.len(),
            out@ == old(out)@ + json_escape(s@.take(k as int)),
        decreases s.len() - k,
    {
        let c = s[k];
        proof {
            lemma_json_escape_push(s@.take(k as int), c);
            assert(s@.take(k as int).push(c) =~= s@.take(k + 1));
        }
        push_json_char(out, c);
        assert(out@ =~= old(out)@ + json_escape(s@.take(k + 1)));
        k = k + 1;
    }
    assert(s@.take(s.len() as int) =~= s@);
}

proof fn lemma_hex_round_trip(d: int)
    requires
        0 <= d < 16,
    ensures
        hex_value(hex_char(d)) == Some(d as nat),
{
}

proof fn lemma_decode_char(c: char, t: Seq<char>, r: Seq<char>)
    requires
        json_decode(t) == Some(r),
    ensures
        json_decode(json_char(c) + t) == Some(seq![c] + r),
{
    let x = json_char(c) + t;
    if short_escape_of(c) {
        assert(x.skip(2) =~= t);
        assert(x[0] == '\\');
    } else if (c as u32) < 0x20 {
        let u = c as u32;
        lemma_hex_round_trip((u / 16) as int);
        lemma_hex_round_trip((u % 16) as int);
        assert(x.skip(6) =~= t);
        assert(x.subrange(2, 6) =~= seq!['0', '0', hex_char((u / 16) as int), hex_char((u % 16) as int)]);
        assert(hex4(x.subrange(2, 6)) == Some(u as nat));
        assert(short_escape('u') is None);
        assert(((u as nat) as u32) as char == c);
    } else {
        assert(x.drop_first() =~= t);
    }
}

/// Whether `json_char(c)` is a two-character escape.
spec fn short_escape_of(c: char) -> bool {
    c == '"' || c == '\\' || c == '\u{8}' || c == '\u{c}' || c == '\n' || c == '\r' || c == '\t'
}

/// The JSON encoding of any text is a valid JSON string body that decodes back to
/// exactly that text.
pub proof fn law_json_escape_round_trip(s: Seq<char>)
    ensures
        json_decode(json_escape(s)) == Some(s),
    decreases s.len(),
{
    if s.len() == 0 {
    } else {
        law_json_escape_round_trip(s.drop_first());
        lemma_decode_char(s[0], json_escape(s.drop_first()), s.drop_first());
        assert(seq![s[0]] + s.drop_first() =~= s);
    }
}

} // verus!
