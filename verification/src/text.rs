//! Character-level text operations used by the configuration, chat and
//! diagnostics logic: whitespace trimming, blank checks, truncation with an
//! ellipsis, decimal rendering and substring search.
use vstd::prelude::*;

verus! {

/// The Unicode `White_Space` property, as `char::is_whitespace` documents it.
pub open spec fn is_ws(c: char) -> bool {
    let u = c as u32;
    ||| 0x09 <= u <= 0x0d
    ||| u == 0x20
    ||| u == 0x85
    ||| u == 0xa0
    ||| u == 0x1680
    ||| 0x2000 <= u <= 0x200a
    ||| u == 0x2028
    ||| u == 0x2029
    ||| u == 0x202f
    ||| u == 0x205f
    ||| u == 0x3000
}

/// Drops leading whitespace.
pub open spec fn trim_start(s: Seq<char>) -> Seq<char>
    decreases s.len(),
{
    if s.len() > 0 && is_ws(s[0]) {
        trim_start(s.drop_first())
    } else {
        s
    }
}

/// Drops trailing whitespace.
pub open spec fn trim_end(s: Seq<char>) -> Seq<char>
    decreases s.len(),
{
    if s.len() > 0 && is_ws(s.last()) {
        trim_end(s.drop_last())
    } else {
        s
    }
}

/// Drops whitespace at both ends, as `str::trim` does.
pub open spec fn trim(s: Seq<char>) -> Seq<char> {
    trim_end(trim_start(s))
}

/// A text is blank when nothing but whitespace remains after trimming.
pub open spec fn is_blank(s: Seq<char>) -> bool {
    trim(s).len() == 0
}

/// The first `n` characters, followed by `...` when characters were cut off.
pub open spec fn truncate_chars(s: Seq<char>, n: nat) -> Seq<char> {
    if s.len() > n {
        s.take(n as int) + seq!['.', '.', '.']
    } else {
        s
    }
}

/// The ASCII digit of a value below ten.
pub open spec fn digit_char(d: nat) -> char {
    ((d + 48) as u32) as char
}

/// Decimal rendering of a natural number, without leading zeros.
pub open spec fn decimal(n: nat) -> Seq<char>
    decreases n,
{
    if n < 10 {
        seq![digit_char(n)]
    } else {
        decimal(n / 10).push(digit_char(n % 10))
    }
}

/// `pat` occurs in `s` starting at index `i`.
pub open spec fn occurs_at(s: Seq<char>, pat: Seq<char>, i: int) -> bool {
    0 <= i && i + pat.len() <= s.len() && s.subrange(i, i + pat.len()) == pat
}

/// `pat` occurs somewhere in `s`.
pub open spec fn contains_seq(s: Seq<char>, pat: Seq<char>) -> bool {
    exists|i: int| occurs_at(s, pat, i)
}

/// Index of the first occurrence of `c`, if any.
pub open spec fn find_char(s: Seq<char>, c: char) -> Option<int>
    decreases s.len(),
{
    if s.len() == 0 {
        None
    } else if s[0] == c {
        Some(0)
    } else {
        match find_char(s.drop_first(), c) {
            Some(i) => Some(i + 1),
            None => None,
        }
    }
}

/// Code point of the ASCII lower-casing of one character; other characters keep theirs.
pub open spec fn ascii_lower(c: char) -> int {
    if 65 <= (c as u32) <= 90 {
        (c as u32) + 32
    } else {
        c as int
    }
}

/// ASCII upper-casing of one character; other characters are kept.
pub open spec fn ascii_upper(c: char) -> char {
    if 97 <= (c as u32) <= 122 {
        ((c as u32) - 32) as char
    } else {
        c
    }
}

/// Case-insensitive equality over ASCII letters, as `str::eq_ignore_ascii_case`.
pub open spec fn eq_ignore_ascii_case(a: Seq<char>, b: Seq<char>) -> bool {
    a.len() == b.len() && forall|i: int| 0 <= i < a.len() ==> ascii_lower(a[i]) == ascii_lower(b[i])
}

/// Every character is ASCII.
pub open spec fn all_ascii(s: Seq<char>) -> bool {
    forall|i: int| 0 <= i < s.len() ==> (s[i] as u32) < 0x80
}

/// Unicode upper-casing of a whole text, as `str::to_uppercase` computes it.
pub uninterp spec fn unicode_uppercase(s: Seq<char>) -> Seq<char>;

/// Whether `c` has the `White_Space` property.
pub(crate) fn char_is_whitespace(c: char) -> (r: bool)
    ensures
        r == is_ws(c),
{
    let u = c as u32;
    (0x09 <= u && u <= 0x0d) || u == 0x20 || u == 0x85 || u == 0xa0 || u == 0x1680 || (0x2000 <= u
        && u <= 0x200a) || u == 0x2028 || u == 0x2029 || u == 0x202f || u == 0x205f || u == 0x3000
}

/// Calls `str::chars` and collects the characters.
#[verifier::external_body]
pub(crate) fn chars_of(s: &str) -> (r: Vec<char>)
    ensures
        r@ == s@,
{
    s.chars().collect()
}

/// Collects the characters `v[from..to]` into a `String`.
#[verifier::external_body]
pub(crate) fn string_from_chars(v: &[char], from: usize, to: usize) -> (r: String)
    requires
        from <= to <= v@.len(),
    ensures
        r@ == v@.subrange(from as int, to as int),
{
    v[from..to].iter().collect()
}

/// Calls `String::push`: the character is appended.
#[verifier::external_body]
pub(crate) fn push_char(s: &mut String, c: char)
    ensures
        final(s)@ == old(s)@.push(c),
{
    s.push(c)
}

/// Appends `t` to `s`.
pub(crate) fn push_str(s: &mut String, t: &str)
    ensures
        final(s)@ == old(s)@ + t@,
{
    s.append(t)
}

/// Calls `str::to_uppercase`. The documentation gives the full Unicode
/// mapping, which is named here; on ASCII text it upper-cases `a`..`z` alone.
#[verifier::external_body]
pub(crate) fn to_uppercase(s: &str) -> (r: String)
    ensures
        r@ == unicode_uppercase(s@),
        all_ascii(s@) ==> r@ == s@.map_values(|c: char| ascii_upper(c)),
{
    s.to_uppercase()
}

/// A fresh `String` holding the given text.
pub fn owned(s: &str) -> (r: String)
    ensures
        r@ == s@,
{
    let mut r = String::new();
    push_str(&mut r, s);
    r
}

/// The concatenation of two texts.
pub fn concat2(a: &str, b: &str) -> (r: String)
    ensures
        r@ == a@ + b@,
{
    let mut r = owned(a);
    push_str(&mut r, b);
    r
}

/// The concatenation of three texts.
pub fn concat3(a: &str, b: &str, c: &str) -> (r: String)
    ensures
        r@ == a@ + b@ + c@,
{
    let mut r = concat2(a, b);
    push_str(&mut r, c);
    r
}

proof fn lemma_trim_start_skip(s: Seq<char>, i: int)
    requires
        0 <= i <= s.len(),
        forall|k: int| 0 <= k < i ==> is_ws(s[k]),
        i == s.len() || !is_ws(s[i]),
    ensures
        trim_start(s) == s.skip(i),
    decreases i,
{
    if i == 0 {
        assert(s.skip(0) =~= s);
    } else {
        let t = s.drop_first();
        assert forall|k: int| 0 <= k < i - 1 implies is_ws(t[k]) by {
            assert(t[k] == s[k + 1]);
        }
        if i < s.len() {
            assert(t[i - 1] == s[i]);
        }
        lemma_trim_start_skip(t, i - 1);
        assert(t.skip(i - 1) =~= s.skip(i));
    }
}

proof fn lemma_trim_end_take(s: Seq<char>, j: int)
    requires
        0 <= j <= s.len(),
        forall|k: int| j <= k < s.len() ==> is_ws(s[k]),
        j == 0 || !is_ws(s[j - 1]),
    ensures
        trim_end(s) == s.take(j),
    decreases s.len() - j,
{
    if j == s.len() {
        assert(s.take(j) =~= s);
    } else {
        let t = s.drop_last();
        lemma_trim_end_take(t, j);
        assert(t.take(j) =~= s.take(j));
    }
}

/// Bounds `(x, y)` of the trimmed part of `v[from..to]`.
pub fn trim_range(v: &Vec<char>, from: usize, to: usize) -> (r: (usize, usize))
    requires
        from <= to <= v@.len(),
    ensures
        from <= r.0 <= r.1 <= to,
        trim(v@.subrange(from as int, to as int)) == v@.subrange(r.0 as int, r.1 as int),
{
    let ghost s = v@.subrange(from as int, to as int);
    let mut i: usize = from;
    while i < to && char_is_whitespace(v[i])
        invariant
            from <= i <= to,
            to <= v@.len(),
            s == v@.subrange(from as int, to as int),
            forall|k: int| from <= k < i ==> is_ws(v@[k]),
        decreases to - i,
    {
        i = i + 1;
    }
    proof {
        assert forall|k: int| 0 <= k < i - from implies is_ws(s[k]) by {
            assert(s[k] == v@[k + from]);
        }
        if i < to {
            assert(s[i - from] == v@[i as int]);
        }
        lemma_trim_start_skip(s, i - from);
    }
    let mut j: usize = to;
    while j > i && char_is_whitespace(v[j - 1])
        invariant
            from <= i <= j <= to,
            to <= v@.len(),
            forall|k: int| j <= k < to ==> is_ws(v@[k]),
        decreases j,
    {
        j = j - 1;
    }
    proof {
        let t = s.skip(i - from);
        assert forall|k: int| j - i <= k < t.len() implies is_ws(t[k]) by {
            assert(t[k] == v@[k + i]);
        }
        if j > i {
            assert(t[j - i - 1] == v@[j - 1]);
        }
        lemma_trim_end_take(t, j - i);
        assert(t.take(j - i) =~= v@.subrange(i as int, j as int));
    }
    (i, j)
}

/// Bounds `(start, end)` of the trimmed part of `v`.
pub fn trim_bounds(v: &Vec<char>) -> (r: (usize, usize))
    ensures
        r.0 <= r.1 <= v@.len(),
        trim(v@) == v@.subrange(r.0 as int, r.1 as int),
{
    let r = trim_range(v, 0, v.len());
    assert(v@.subrange(0, v@.len() as int) =~= v@);
    r
}

/// `str::trim`, returning an owned text.
pub fn trim_text(s: &str) -> (r: String)
    ensures
        r@ == trim(s@),
{
    let v = chars_of(s);
    let (a, b) = trim_bounds(&v);
    string_from_chars(v.as_slice(), a, b)
}

/// Whether the text is empty after trimming, as `s.trim().is_empty()`.
pub fn is_blank_text(s: &str) -> (r: bool)
    ensures
        r == is_blank(s@),
{
    let v = chars_of(s);
    let (a, b) = trim_bounds(&v);
    a == b
}

/// The first `max_chars` characters of `value`, with `...` appended when the
/// text was longer.
pub fn truncate_with_ellipsis(value: &str, max_chars: usize) -> (r: String)
    ensures
        r@ == truncate_chars(value@, max_chars as nat),
{
    let v = chars_of(value);
    if v.len() > max_chars {
        let mut r = string_from_chars(v.as_slice(), 0, max_chars);
        push_str(&mut r, "...");
        proof {
            reveal_strlit("...");
            assert(v@.subrange(0, max_chars as int) =~= v@.take(max_chars as int));
        }
        r
    } else {
        proof {
            assert(v@.subrange(0, v@.len() as int) =~= v@);
        }
        string_from_chars(v.as_slice(), 0, v.len())
    }
}

/// Appends the decimal rendering of `n`.
pub fn push_decimal(out: &mut String, n: u128)
    ensures
        final(out)@ == old(out)@ + decimal(n as nat),
    decreases n,
{
    if n >= 10 {
        push_decimal(out, n / 10);
    }
    let d = (n % 10) as u32;
    let c = match d {
        0 => '0',
        1 => '1',
        2 => '2',
        3 => '3',
        4 => '4',
        5 => '5',
        6 => '6',
        7 => '7',
        8 => '8',
        _ => '9',
    };
    assert(c == digit_char((n % 10) as nat));
    push_char(out, c);
    proof {
        if n < 10 {
            assert(old(out)@ + decimal(n as nat) =~= old(out)@.push(c));
        } else {
            assert((old(out)@ + decimal((n / 10) as nat)).push(c) =~= old(out)@ + decimal(n as nat));
        }
    }
}

/// Decimal rendering of `n`, as `n.to_string()` gives it.
pub fn decimal_text(n: u128) -> (r: String)
    ensures
        r@ == decimal(n as nat),
{
    let mut r = String::new();
    push_decimal(&mut r, n);
    proof {
        assert(Seq::<char>::empty() + decimal(n as nat) =~= decimal(n as nat));
    }
    r
}

/// Index of the first occurrence of `c` in `v[from..to]`, counted from the
/// start of `v`.
pub fn find_char_in_range(v: &Vec<char>, from: usize, to: usize, c: char) -> (r: Option<usize>)
    requires
        from <= to <= v@.len(),
    ensures
        match r {
            Some(j) => from <= j < to && find_char(v@.subrange(from as int, to as int), c) == Some(
                j - from,
            ),
            None => find_char(v@.subrange(from as int, to as int), c) is None,
        },
{
    let ghost s = v@.subrange(from as int, to as int);
    let mut i: usize = from;
    while i < to
        invariant
            from <= i <= to,
            to <= v@.len(),
            s == v@.subrange(from as int, to as int),
            forall|k: int| from <= k < i ==> v@[k] != c,
        decreases to - i,
    {
        if v[i] == c {
            proof {
                assert forall|k: int| 0 <= k < i - from implies s[k] != c by {
                    assert(s[k] == v@[k + from]);
                }
                assert(s[i - from] == v@[i as int]);
                lemma_find_char_first(s, c, i - from);
            }
            return Some(i);
        }
        i = i + 1;
    }
    proof {
        assert forall|k: int| 0 <= k < s.len() implies s[k] != c by {
            assert(s[k] == v@[k + from]);
        }
        lemma_find_char_none(s, c);
    }
    None
}

proof fn lemma_find_char_first(s: Seq<char>, c: char, i: int)
    requires
        0 <= i < s.len(),
        s[i] == c,
        forall|k: int| 0 <= k < i ==> s[k] != c,
    ensures
        find_char(s, c) == Some(i),
    decreases i,
{
    if i > 0 {
        let t = s.drop_first();
        assert forall|k: int| 0 <= k < i - 1 implies t[k] != c by {
            assert(t[k] == s[k + 1]);
        }
        lemma_find_char_first(t, c, i - 1);
    }
}

proof fn lemma_find_char_none(s: Seq<char>, c: char)
    requires
        forall|k: int| 0 <= k < s.len() ==> s[k] != c,
    ensures
        find_char(s, c) is None,
    decreases s.len(),
{
    if s.len() > 0 {
        let t = s.drop_first();
        assert forall|k: int| 0 <= k < t.len() implies t[k] != c by {
            assert(t[k] == s[k + 1]);
        }
        lemma_find_char_none(t, c);
    }
}

/// Whether `pat` occurs in `s`, as `str::contains` with a text pattern.
pub fn contains_text(s: &str, pat: &str) -> (r: bool)
    ensures
        r == contains_seq(s@, pat@),
{
    let v = chars_of(s);
    let p = chars_of(pat);
    let n = v.len();
    let m = p.len();
    if m > n {
        return false;
    }
    let mut i: usize = 0;
    while i <= n - m
        invariant
            m <= n,
            n == v@.len(),
            m == p@.len(),
            v@ == s@,
            p@ == pat@,
            i <= n - m + 1,
            forall|k: int| 0 <= k < i ==> !occurs_at(v@, p@, k),
        decreases n - m + 1 - i,
    {
        let mut j: usize = 0;
        while j < m && v[i + j] == p[j]
            invariant
                j <= m,
                i + m <= n,
                n == v@.len(),
                m == p@.len(),
                forall|k: int| 0 <= k < j ==> v@[i + k] == p@[k],
            decreases m - j,
        {
            j = j + 1;
        }
        if j == m {
            proof {
                assert(v@.subrange(i as int, i + m) =~= p@);
                assert(occurs_at(v@, p@, i as int));
            }
            return true;
        }
        proof {
            assert(!occurs_at(v@, p@, i as int)) by {
                if occurs_at(v@, p@, i as int) {
                    assert(v@.subrange(i as int, i + m)[j as int] == v@[i + j]);
                }
            }
        }
        i = i + 1;
    }
    proof {
        assert forall|k: int| !occurs_at(v@, p@, k) by {
            if 0 <= k < i {
            }
        }
    }
    false
}

/// ASCII case-insensitive comparison, as `str::eq_ignore_ascii_case`.
pub fn eq_ignore_ascii_case_text(a: &str, b: &str) -> (r: bool)
    ensures
        r == eq_ignore_ascii_case(a@, b@),
{
    let x = chars_of(a);
    let y = chars_of(b);
    if x.len() != y.len() {
        return false;
    }
    let n = x.len();
    let mut i: usize = 0;
    while i < n
        invariant
            i <= n,
            n == x@.len(),
            n == y@.len(),
            x@ == a@,
            y@ == b@,
            forall|k: int| 0 <= k < i ==> ascii_lower(x@[k]) == ascii_lower(y@[k]),
        decreases n - i,
    {
        if lower_ascii_char(x[i]) != lower_ascii_char(y[i]) {
            assert(ascii_lower(a@[i as int]) != ascii_lower(b@[i as int]));
            return false;
        }
        i = i + 1;
    }
    true
}

fn lower_ascii_char(c: char) -> (r: u32)
    ensures
        r == ascii_lower(c),
{
    let u = c as u32;
    if 65 <= u && u <= 90 {
        u + 32
    } else {
        u
    }
}

/// Index of the first occurrence of `pat` in `s` at or after `i`.
pub open spec fn find_seq_from(s: Seq<char>, pat: Seq<char>, i: int) -> Option<int>
    decreases s.len() + 1 - i,
{
    if i < 0 || i + pat.len() > s.len() {
        None
    } else if occurs_at(s, pat, i) {
        Some(i)
    } else {
        find_seq_from(s, pat, i + 1)
    }
}

/// Index of the first occurrence of `pat` in `s`.
pub open spec fn find_seq(s: Seq<char>, pat: Seq<char>) -> Option<int> {
    find_seq_from(s, pat, 0)
}

/// Index of the first occurrence of `pat` in `v`, as `str::find` with a text
/// pattern counts it in characters.
pub fn find_text(v: &Vec<char>, pat: &Vec<char>) -> (r: Option<usize>)
    ensures
        match r {
            Some(i) => find_seq(v@, pat@) == Some(i as int) && occurs_at(v@, pat@, i as int),
            None => find_seq(v@, pat@) is None,
        },
{
    let n = v.len();
    let m = pat.len();
    if m > n {
        return None;
    }
    let mut i: usize = 0;
    while i <= n - m
        invariant
            m <= n,
            n == v@.len(),
            m == pat@.len(),
            i <= n - m + 1,
            find_seq(v@, pat@) == find_seq_from(v@, pat@, i as int),
        decreases n - m + 1 - i,
    {
        let mut j: usize = 0;
        while j < m && v[i + j] == pat[j]
            invariant
                j <= m,
                i + m <= n,
                n == v@.len(),
                m == pat@.len(),
                forall|k: int| 0 <= k < j ==> v@[i + k] == pat@[k],
            decreases m - j,
        {
            j = j + 1;
        }
        if j == m {
            proof {
                assert(v@.subrange(i as int, i + m) =~= pat@);
            }
            return Some(i);
        }
        proof {
            assert(!occurs_at(v@, pat@, i as int)) by {
                if occurs_at(v@, pat@, i as int) {
                    assert(v@.subrange(i as int, i + m)[j as int] == v@[i + j]);
                }
            }
        }
        i = i + 1;
    }
    None
}

/// A truncated text is the text itself when short enough; otherwise its
/// first `n` characters and `...`, so never longer than `n + 3`.
pub proof fn lemma_truncate_shape(s: Seq<char>, n: nat)
    ensures
        s.len() <= n ==> truncate_chars(s, n) == s,
        truncate_chars(s, n).len() <= n + 3,
        truncate_chars(s, n).len() <= s.len() + 3,
        s.len() > n ==> truncate_chars(s, n).take(n as int) == s.take(n as int),
{
    if s.len() > n {
        let t = truncate_chars(s, n);
        assert(t.take(n as int) =~= s.take(n as int));
    }
}

/// Trimming twice trims no more than trimming once.
pub proof fn lemma_trim_idempotent(s: Seq<char>)
    ensures
        trim(trim(s)) == trim(s),
{
    lemma_trim_start_stable(s);
    lemma_trim_end_stable(trim_start(s));
    let t = trim(s);
    lemma_trim_end_keeps_start(trim_start(s));
    lemma_trim_start_of_trimmed(t);
}

proof fn lemma_trim_start_stable(s: Seq<char>)
    ensures
        trim_start(s).len() == 0 || !is_ws(trim_start(s)[0]),
    decreases s.len(),
{
    if s.len() > 0 && is_ws(s[0]) {
        lemma_trim_start_stable(s.drop_first());
    }
}

proof fn lemma_trim_end_stable(s: Seq<char>)
    ensures
        trim_end(s).len() == 0 || !is_ws(trim_end(s).last()),
        trim_end(trim_end(s)) == trim_end(s),
    decreases s.len(),
{
    if s.len() > 0 && is_ws(s.last()) {
        lemma_trim_end_stable(s.drop_last());
    }
}

proof fn lemma_trim_end_keeps_start(s: Seq<char>)
    requires
        s.len() == 0 || !is_ws(s[0]),
    ensures
        trim_end(s).len() == 0 || !is_ws(trim_end(s)[0]),
        trim_end(s).len() == 0 || trim_end(s)[0] == s[0],
    decreases s.len(),
{
    if s.len() > 0 && is_ws(s.last()) {
        if s.len() > 1 {
            assert(s.drop_last()[0] == s[0]);
        }
        lemma_trim_end_keeps_start(s.drop_last());
    }
}

proof fn lemma_trim_start_of_trimmed(t: Seq<char>)
    requires
        t.len() == 0 || !is_ws(t[0]),
        t.len() == 0 || !is_ws(t.last()),
        trim_end(t) == t,
    ensures
        trim(t) == t,
{
}

} // verus!
