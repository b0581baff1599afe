//! Character-level text helpers shared by the parsers and formatters.

use vstd::prelude::*;

verus! {

/// The Unicode `White_Space` property (PropList.txt), which `char::is_whitespace`
/// reports: tab through carriage return, space, next line, no-break space, ogham
/// space mark, en quad through hair space, line and paragraph separators, narrow
/// no-break space, medium mathematical space and ideographic space.
pub open spec fn unicode_whitespace(c: char) -> bool {
    let u = c as u32;
    ||| 0x09 <= u <= 0x0D
    ||| u == 0x20
    ||| u == 0x85
    ||| u == 0xA0
    ||| u == 0x1680
    ||| 0x2000 <= u <= 0x200A
    ||| u == 0x2028
    ||| u == 0x2029
    ||| u == 0x202F
    ||| u == 0x205F
    ||| u == 0x3000
}

/// Full Unicode lower-casing, as `str::to_lowercase` computes it.
pub uninterp spec fn unicode_lowercase(s: Seq<char>) -> Seq<char>;

/// Whether `c` has the Unicode `White_Space` property.
pub(crate) fn is_whitespace(c: char) -> (b: bool)
    ensures
        b == unicode_whitespace(c),
{
    proof {
        reveal(unicode_whitespace);
    }
    let u = c as u32;
    (0x09 <= u && u <= 0x0D) || u == 0x20 || u == 0x85 || u == 0xA0 || u == 0x1680 || (0x2000
        <= u && u <= 0x200A) || u == 0x2028 || u == 0x2029 || u == 0x202F || u == 0x205F || u
        == 0x3000
}

/// Calls `str::to_lowercase`; the result is the Unicode lower-case mapping of `s`,
/// a function of `s` alone.
#[verifier::external_body]
pub(crate) fn to_lowercase(s: &str) -> (r: String)
    ensures
        r@ == unicode_lowercase(s@),
{
    s.to_lowercase()
}

/// Calls `String::push`, which appends one character.
#[verifier::external_body]
pub(crate) fn push_char(s: &mut String, c: char)
    ensures
        final(s)@ == old(s)@.push(c),
{
    s.push(c)
}

/// The characters of `s`, in order.
pub fn chars_of(s: &str) -> (v: Vec<char>)
    ensures
        v@ == s@,
{
    let mut v: Vec<char> = Vec::new();
    for c in it: s.chars()
        invariant
            v@ == it.seq().take(it.index()),
    {
        v.push(c);
    }
    v
}

/// A `String` holding exactly the characters of `v`.
pub fn string_of(v: &[char]) -> (s: String)
    ensures
        s@ == v@,
{
    let mut s = String::new();
    let mut i: usize = 0;
    while i < v.len()
        invariant
            i <= v.len(),
            s@ == v@.take(i as int),
        decreases v.len() - i,
    {
        push_char(&mut s, v[i]);
        proof {
            assert(v@.take(i as int + 1) =~= v@.take(i as int).push(v@[i as int]));
        }
        i = i + 1;
    }
    proof {
        assert(v@.take(v@.len() as int) =~= v@);
    }
    s
}

/// ASCII lower-casing of one character (other characters are unchanged).
pub open spec fn ascii_lower(c: char) -> char {
    if 'A' <= c && c <= 'Z' {
        ((c as u32) + 32) as char
    } else {
        c
    }
}

/// `char::to_ascii_lowercase`.
pub fn lower_ascii_char(c: char) -> (r: char)
    ensures
        r == ascii_lower(c),
{
    if 'A' <= c && c <= 'Z' {
        ((c as u8) + 32) as char
    } else {
        c
    }
}


/// ASCII lower-casing of every character.
pub open spec fn ascii_lower_seq(s: Seq<char>) -> Seq<char> {
    s.map_values(|c: char| ascii_lower(c))
}

/// `str::eq_ignore_ascii_case`.
pub open spec fn eq_ignore_case(a: Seq<char>, b: Seq<char>) -> bool {
    ascii_lower_seq(a) == ascii_lower_seq(b)
}

/// ASCII upper-casing of one character.
pub open spec fn ascii_upper(c: char) -> char {
    if 'a' <= c && c <= 'z' {
        ((c as u32) - 32) as char
    } else {
        c
    }
}

/// `char::to_ascii_uppercase`.
pub fn upper_ascii_char(c: char) -> (r: char)
    ensures
        r == ascii_upper(c),
{
    if 'a' <= c && c <= 'z' {
        ((c as u8) - 32) as char
    } else {
        c
    }
}

/// ASCII lower-cased copy of a character sequence.
pub fn lower_ascii_chars(v: &[char]) -> (r: Vec<char>)
    ensures
        r@ == ascii_lower_seq(v@),
{
    let mut r: Vec<char> = Vec::new();
    let mut i: usize = 0;
    while i < v.len()
        invariant
            i <= v.len(),
            r@ == ascii_lower_seq(v@.take(i as int)),
        decreases v.len() - i,
    {
        r.push(lower_ascii_char(v[i]));
        proof {
            assert(ascii_lower_seq(v@.take(i as int + 1)) =~= ascii_lower_seq(v@.take(i as int)).push(
                ascii_lower(v@[i as int]),
            ));
        }
        i = i + 1;
    }
    proof {
        assert(v@.take(v@.len() as int) =~= v@);
    }
    r
}

/// Equality of two character sequences.
pub fn chars_eq(a: &[char], b: &[char]) -> (r: bool)
    ensures
        r == (a@ == b@),
{
    if a.len() != b.len() {
        return false;
    }
    let mut i: usize = 0;
    while i < a.len()
        invariant
            a.len() == b.len(),
            i <= a.len(),
            forall|j: int| 0 <= j < i ==> a@[j] == b@[j],
        decreases a.len() - i,
    {
        if a[i] != b[i] {
            return false;
        }
        i = i + 1;
    }
    proof {
        assert(a@ =~= b@);
    }
    true
}

/// Whether the characters `v` spell the string `s`.
pub fn chars_eq_str(v: &[char], s: &str) -> (r: bool)
    ensures
        r == (v@ == s@),
{
    let w = chars_of(s);
    chars_eq(v, w.as_slice())
}

/// `str::eq_ignore_ascii_case` on character sequences.
pub fn chars_eq_ignore_case(a: &[char], b: &[char]) -> (r: bool)
    ensures
        r == eq_ignore_case(a@, b@),
{
    let x = lower_ascii_chars(a);
    let y = lower_ascii_chars(b);
    chars_eq(x.as_slice(), y.as_slice())
}

/// `str::eq_ignore_ascii_case`.
pub fn str_eq_ignore_case(a: &str, b: &str) -> (r: bool)
    ensures
        r == eq_ignore_case(a@, b@),
{
    let x = chars_of(a);
    let y = chars_of(b);
    chars_eq_ignore_case(x.as_slice(), y.as_slice())
}

// ---------------------------------------------------------------------------
// Trimming
// ---------------------------------------------------------------------------

/// `str::trim_start`: leading Unicode whitespace removed.
pub open spec fn trim_start(s: Seq<char>) -> Seq<char>
    decreases s.len(),
{
    if s.len() > 0 && unicode_whitespace(s[0]) {
        trim_start(s.drop_first())
    } else {
        s
    }
}

/// `str::trim_end`: trailing Unicode whitespace removed.
pub open spec fn trim_end(s: Seq<char>) -> Seq<char>
    decreases s.len(),
{
    if s.len() > 0 && unicode_whitespace(s.last()) {
        trim_end(s.drop_last())
    } else {
        s
    }
}

/// `str::trim`: leading and trailing Unicode whitespace removed.
pub open spec fn trim(s: Seq<char>) -> Seq<char> {
    trim_end(trim_start(s))
}

proof fn lemma_trim_start_skip(s: Seq<char>, i: int)
    requires
        0 <= i <= s.len(),
        forall|j: int| 0 <= j < i ==> unicode_whitespace(s[j]),
        i < s.len() ==> !unicode_whitespace(s[i]),
    ensures
        trim_start(s) == s.skip(i),
    decreases i,
{
    if i == 0 {
        assert(s.skip(0) =~= s);
    } else {
        assert forall|j: int| 0 <= j < i - 1 implies unicode_whitespace(s.drop_first()[j]) by {
            assert(s.drop_first()[j] == s[j + 1]);
        }
        lemma_trim_start_skip(s.drop_first(), i - 1);
        assert(s.drop_first().skip(i - 1) =~= s.skip(i));
    }
}

proof fn lemma_trim_end_take(s: Seq<char>, k: int)
    requires
        0 <= k <= s.len(),
        forall|j: int| k <= j < s.len() ==> unicode_whitespace(s[j]),
        k > 0 ==> !unicode_whitespace(s[k - 1]),
    ensures
        trim_end(s) == s.take(k),
    decreases s.len() - k,
{
    if k == s.len() {
        assert(s.take(k) =~= s);
    } else {
        assert forall|j: int| k <= j < s.drop_last().len() implies unicode_whitespace(
            s.drop_last()[j],
        ) by {
            assert(s.drop_last()[j] == s[j]);
        }
        lemma_trim_end_take(s.drop_last(), k);
        assert(s.drop_last().take(k) =~= s.take(k));
    }
}

/// The characters of `s` with leading and trailing whitespace removed.
pub fn trimmed_chars(s: &str) -> (r: Vec<char>)
    ensures
        r@ == trim(s@),
{
    let v = chars_of(s);
    let mut a: usize = 0;
    while a < v.len() && is_whitespace(v[a])
        invariant
            a <= v.len(),
            forall|j: int| 0 <= j < a ==> unicode_whitespace(v@[j]),
        decreases v.len() - a,
    {
        a = a + 1;
    }
    proof {
        lemma_trim_start_skip(v@, a as int);
    }
    let mut b: usize = v.len();
    while b > a && is_whitespace(v[b - 1])
        invariant
            a <= b <= v.len(),
            forall|j: int| b <= j < v.len() ==> unicode_whitespace(v@[j]),
        decreases b - a,
    {
        b = b - 1;
    }
    let ghost t = v@.skip(a as int);
    proof {
        assert forall|j: int| b - a <= j < t.len() implies unicode_whitespace(t[j]) by {
            assert(t[j] == v@[j + a]);
        }
        if b > a {
            assert(t[b - a - 1] == v@[b - 1]);
        }
        lemma_trim_end_take(t, b - a);
    }
    let mut r: Vec<char> = Vec::new();
    let mut i: usize = a;
    while i < b
        invariant
            a <= i <= b <= v.len(),
            r@ == v@.subrange(a as int, i as int),
        decreases b - i,
    {
        r.push(v[i]);
        proof {
            assert(v@.subrange(a as int, i as int + 1) =~= v@.subrange(a as int, i as int).push(
                v@[i as int],
            ));
        }
        i = i + 1;
    }
    proof {
        assert(r@ =~= t.take(b - a));
    }
    r
}

// ---------------------------------------------------------------------------
// Words, substrings, occurrences
// ---------------------------------------------------------------------------

/// Length of the run of non-whitespace characters at the start of `s`.
pub open spec fn word_len(s: Seq<char>) -> nat
    decreases s.len(),
{
    if s.len() == 0 || unicode_whitespace(s[0]) {
        0
    } else {
        1 + word_len(s.drop_first())
    }
}

pub proof fn lemma_word_len(s: Seq<char>)
    ensures
        word_len(s) <= s.len(),
        s.len() > 0 && !unicode_whitespace(s[0]) ==> word_len(s) >= 1,
    decreases s.len(),
{
    if s.len() > 0 && !unicode_whitespace(s[0]) {
        lemma_word_len(s.drop_first());
    }
}

/// `str::split_whitespace`: the maximal runs of non-whitespace characters, in order.
pub open spec fn words(s: Seq<char>) -> Seq<Seq<char>>
    decreases s.len(),
{
    if s.len() == 0 {
        seq![]
    } else if unicode_whitespace(s[0]) {
        words(s.drop_first())
    } else {
        proof {
            lemma_word_len(s);
        }
        seq![s.take(word_len(s) as int)] + words(s.skip(word_len(s) as int))
    }
}

proof fn lemma_word_len_run(s: Seq<char>, k: int)
    requires
        0 <= k <= s.len(),
        forall|j: int| 0 <= j < k ==> !unicode_whitespace(s[j]),
        k < s.len() ==> unicode_whitespace(s[k]),
    ensures
        word_len(s) == k,
    decreases k,
{
    if k > 0 {
        assert forall|j: int| 0 <= j < k - 1 implies !unicode_whitespace(s.drop_first()[j]) by {
            assert(s.drop_first()[j] == s[j + 1]);
        }
        if k - 1 < s.drop_first().len() {
            assert(s.drop_first()[k - 1] == s[k]);
        }
        lemma_word_len_run(s.drop_first(), k - 1);
    }
}

/// The views of a list of character vectors.
/// The views of a sequence of strings.
pub open spec fn strings_view(v: Seq<String>) -> Seq<Seq<char>> {
    v.map_values(|s: String| s@)
}

pub open spec fn vecs_view(v: Seq<Vec<char>>) -> Seq<Seq<char>> {
    v.map_values(|w: Vec<char>| w@)
}

/// The words of `v`, as `str::split_whitespace` yields them.
pub fn split_words(v: &[char]) -> (r: Vec<Vec<char>>)
    ensures
        vecs_view(r@) == words(v@),
{
    let mut out: Vec<Vec<char>> = Vec::new();
    let mut i: usize = 0;
    proof {
        assert(v@.skip(0) =~= v@);
    }
    while i < v.len()
        invariant
            i <= v.len(),
            vecs_view(out@) + words(v@.skip(i as int)) == words(v@),
        decreases v.len() - i,
    {
        let ghost rest = v@.skip(i as int);
        if is_whitespace(v[i]) {
            proof {
                assert(rest[0] == v@[i as int]);
                assert(rest.drop_first() =~= v@.skip(i as int + 1));
            }
            i = i + 1;
        } else {
            let mut j: usize = i;
            let mut w: Vec<char> = Vec::new();
            while j < v.len() && !is_whitespace(v[j])
                invariant
                    i <= j <= v.len(),
                    w@ == v@.subrange(i as int, j as int),
                    forall|k: int| i <= k < j ==> !unicode_whitespace(v@[k]),
                decreases v.len() - j,
            {
                w.push(v[j]);
                proof {
                    assert(v@.subrange(i as int, j as int + 1) =~= v@.subrange(i as int, j as int).push(
                        v@[j as int],
                    ));
                }
                j = j + 1;
            }
            proof {
                assert forall|k: int| 0 <= k < j - i implies !unicode_whitespace(rest[k]) by {
                    assert(rest[k] == v@[k + i]);
                }
                if j < v.len() {
                    assert(rest[j - i] == v@[j as int]);
                }
                assert(rest[0] == v@[i as int]);
                lemma_word_len_run(rest, j - i);
                assert(rest.take(j - i) =~= w@);
                assert(rest.skip(j - i) =~= v@.skip(j as int));
                let ghost before = out@;
                assert(vecs_view(before.push(w)) =~= vecs_view(before).push(w@));
                assert(words(rest) == seq![w@] + words(v@.skip(j as int)));
                assert(vecs_view(before).push(w@) + words(v@.skip(j as int)) =~= vecs_view(before)
                    + (seq![w@] + words(v@.skip(j as int))));
            }
            out.push(w);
            i = j;
        }
    }
    proof {
        assert(v@.skip(v@.len() as int) =~= Seq::<char>::empty());
        assert(words(v@.skip(v@.len() as int)) =~= Seq::<Seq<char>>::empty());
        assert(vecs_view(out@) + Seq::<Seq<char>>::empty() =~= vecs_view(out@));
    }
    out
}

/// Whether `p` is a prefix of `s`.
pub open spec fn has_prefix(s: Seq<char>, p: Seq<char>) -> bool {
    p.len() <= s.len() && s.take(p.len() as int) == p
}

/// Whether `p` is a suffix of `s`.
pub open spec fn has_suffix(s: Seq<char>, p: Seq<char>) -> bool {
    p.len() <= s.len() && s.skip(s.len() - p.len()) == p
}

/// Whether `n` occurs in `h` at position `i`.
pub open spec fn occurs_at(h: Seq<char>, n: Seq<char>, i: int) -> bool {
    0 <= i && i + n.len() <= h.len() && h.subrange(i, i + n.len()) == n
}

/// Whether `n` occurs anywhere in `h` (`str::contains`).
pub open spec fn contains_seq(h: Seq<char>, n: Seq<char>) -> bool {
    exists|i: int| occurs_at(h, n, i)
}

/// Whether `p` occurs in `h` at position `i`, matching letters without regard to ASCII
/// case.
pub open spec fn occurs_at_ignore_case(h: Seq<char>, p: Seq<char>, i: int) -> bool {
    0 <= i && i + p.len() <= h.len() && eq_ignore_case(h.subrange(i, i + p.len()), p)
}

/// Position of the first occurrence of `n` in `h`, if any.
pub open spec fn first_occurrence(h: Seq<char>, n: Seq<char>) -> Option<int> {
    if exists|i: int| occurs_at(h, n, i) {
        Some(choose|i: int| occurs_at(h, n, i) && forall|j: int| 0 <= j < i ==> !occurs_at(h, n, j))
    } else {
        None
    }
}

/// Whether the characters of `n` occur at position `i` of `h`.
pub fn matches_at(h: &[char], n: &[char], i: usize) -> (b: bool)
    ensures
        b == occurs_at(h@, n@, i as int),
{
    if i > h.len() || n.len() > h.len() - i {
        return false;
    }
    let mut k: usize = 0;
    while k < n.len()
        invariant
            i + n.len() <= h.len(),
            k <= n.len(),
            forall|j: int| 0 <= j < k ==> h@[i + j] == n@[j],
        decreases n.len() - k,
    {
        if h[i + k] != n[k] {
            proof {
                assert(h@.subrange(i as int, i + n.len())[k as int] != n@[k as int]);
            }
            return false;
        }
        k = k + 1;
    }
    proof {
        assert(h@.subrange(i as int, i + n.len()) =~= n@);
    }
    true
}

/// Whether `p` occurs at position `i` of `h`, ignoring ASCII case.
pub fn matches_at_ignore_case(h: &[char], p: &[char], i: usize) -> (b: bool)
    ensures
        b == occurs_at_ignore_case(h@, p@, i as int),
{
    if i > h.len() || p.len() > h.len() - i {
        return false;
    }
    let mut k: usize = 0;
    while k < p.len()
        invariant
            i + p.len() <= h.len(),
            k <= p.len(),
            forall|j: int| 0 <= j < k ==> ascii_lower(h@[i + j]) == ascii_lower(p@[j]),
        decreases p.len() - k,
    {
        if lower_ascii_char(h[i + k]) != lower_ascii_char(p[k]) {
            proof {
                let w = h@.subrange(i as int, i + p.len());
                assert(ascii_lower_seq(w)[k as int] != ascii_lower_seq(p@)[k as int]);
            }
            return false;
        }
        k = k + 1;
    }
    proof {
        let w = h@.subrange(i as int, i + p.len());
        assert(ascii_lower_seq(w) =~= ascii_lower_seq(p@));
    }
    true
}

/// Position of the first occurrence of `n` in `h`.
pub fn find_chars(h: &[char], n: &[char]) -> (r: Option<usize>)
    ensures
        r.is_some() == contains_seq(h@, n@),
        r.is_some() ==> occurs_at(h@, n@, r.unwrap() as int) && forall|j: int|
            0 <= j < r.unwrap() ==> !occurs_at(h@, n@, j),
        r.is_some() ==> first_occurrence(h@, n@) == Some(r.unwrap() as int),
        r.is_none() ==> first_occurrence(h@, n@) is None,
{
    let mut i: usize = 0;
    while i < h.len()
        invariant
            i <= h.len(),
            forall|j: int| 0 <= j < i ==> !occurs_at(h@, n@, j),
        decreases h.len() - i,
    {
        if matches_at(h, n, i) {
            proof {
                lemma_first_occurrence(h@, n@, i as int);
            }
            return Some(i);
        }
        i = i + 1;
    }
    if matches_at(h, n, i) {
        proof {
            lemma_first_occurrence(h@, n@, i as int);
        }
        return Some(i);
    }
    proof {
        assert forall|j: int| !occurs_at(h@, n@, j) by {
            if 0 <= j && j <= i {
            }
        }
    }
    None
}

proof fn lemma_first_occurrence(h: Seq<char>, n: Seq<char>, i: int)
    requires
        occurs_at(h, n, i),
        forall|j: int| 0 <= j < i ==> !occurs_at(h, n, j),
    ensures
        first_occurrence(h, n) == Some(i),
{
    let c = choose|k: int| occurs_at(h, n, k) && forall|j: int| 0 <= j < k ==> !occurs_at(h, n, j);
    assert(occurs_at(h, n, c));
    assert(c == i) by {
        if c < i {
            assert(!occurs_at(h, n, c));
        } else if c > i {
            assert(!occurs_at(h, n, i));
        }
    }
}

/// Position of the first place `p` occurs in `h` ignoring ASCII case.
pub fn find_chars_ignore_case(h: &[char], p: &[char]) -> (r: Option<usize>)
    ensures
        r.is_some() ==> occurs_at_ignore_case(h@, p@, r.unwrap() as int) && forall|j: int|
            0 <= j < r.unwrap() ==> !occurs_at_ignore_case(h@, p@, j),
        r.is_none() ==> forall|j: int| !occurs_at_ignore_case(h@, p@, j),
{
    let mut i: usize = 0;
    while i < h.len()
        invariant
            i <= h.len(),
            forall|j: int| 0 <= j < i ==> !occurs_at_ignore_case(h@, p@, j),
        decreases h.len() - i,
    {
        if matches_at_ignore_case(h, p, i) {
            return Some(i);
        }
        i = i + 1;
    }
    if matches_at_ignore_case(h, p, i) {
        return Some(i);
    }
    proof {
        assert forall|j: int| !occurs_at_ignore_case(h@, p@, j) by {
            if 0 <= j && j <= i {
            }
        }
    }
    None
}

/// `str::matches(n).count()`: the number of non-overlapping occurrences of a
/// non-empty `n` in `h`, scanning left to right.
pub open spec fn count_occ(h: Seq<char>, n: Seq<char>) -> nat
    decreases h.len(),
{
    if n.len() == 0 || h.len() < n.len() {
        0
    } else if h.take(n.len() as int) == n {
        1 + count_occ(h.skip(n.len() as int), n)
    } else {
        count_occ(h.skip(1), n)
    }
}

proof fn lemma_count_occ_bound(h: Seq<char>, n: Seq<char>)
    ensures
        count_occ(h, n) <= h.len(),
    decreases h.len(),
{
    if n.len() > 0 && h.len() >= n.len() {
        if h.take(n.len() as int) == n {
            lemma_count_occ_bound(h.skip(n.len() as int), n);
        } else {
            lemma_count_occ_bound(h.skip(1), n);
        }
    }
}

/// Number of non-overlapping occurrences of `n` in `h`.
pub fn count_matches(h: &[char], n: &[char]) -> (r: usize)
    ensures
        r == count_occ(h@, n@),
        r <= h@.len(),
{
    proof {
        lemma_count_occ_bound(h@, n@);
    }
    if n.len() == 0 {
        return 0;
    }
    let mut count: usize = 0;
    let mut i: usize = 0;
    proof {
        assert(h@.skip(0) =~= h@);
    }
    while n.len() <= h.len() - i
        invariant
            n.len() > 0,
            i <= h.len(),
            count + count_occ(h@.skip(i as int), n@) == count_occ(h@, n@),
            count_occ(h@, n@) <= h@.len(),
        decreases h.len() - i,
    {
        let ghost rest = h@.skip(i as int);
        proof {
            lemma_count_occ_bound(rest, n@);
            assert(rest.take(n@.len() as int) =~= h@.subrange(i as int, i + n@.len()));
        }
        if matches_at(h, n, i) {
            proof {
                assert(rest.skip(n@.len() as int) =~= h@.skip(i + n@.len()));
            }
            count = count + 1;
            i = i + n.len();
        } else {
            proof {
                assert(rest.skip(1) =~= h@.skip(i + 1));
            }
            i = i + 1;
        }
    }
    count
}

// ---------------------------------------------------------------------------
// Decimal text
// ---------------------------------------------------------------------------

/// Decimal text of a natural number, without leading zeros.
pub open spec fn decimal(n: nat) -> Seq<char>
    decreases n,
{
    if n < 10 {
        seq![digit_char(n)]
    } else {
        decimal(n / 10).push(digit_char(n % 10))
    }
}

pub open spec fn digit_char(d: nat) -> char {
    (48 + d) as char
}

fn digit(d: u64) -> (c: char)
    requires
        d < 10,
    ensures
        c == digit_char(d as nat),
{
    let b: u8 = d as u8;
    (48u8 + b) as char
}

/// Appends the decimal text of `n`.
pub fn write_decimal(n: u64, out: &mut String)
    ensures
        final(out)@ == old(out)@ + decimal(n as nat),
    decreases n,
{
    if n < 10 {
        push_char(out, digit(n));
    } else {
        write_decimal(n / 10, out);
        push_char(out, digit(n % 10));
    }
}

/// Decimal text of an unsigned integer (`u64::to_string`).
pub fn decimal_text(n: u64) -> (r: String)
    ensures
        r@ == decimal(n as nat),
{
    let mut out = String::new();
    write_decimal(n, &mut out);
    proof {
        assert(out@ =~= decimal(n as nat));
    }
    out
}


// ---------------------------------------------------------------------------
// Trimming one character, or a prefix
// ---------------------------------------------------------------------------

/// `trim_start_matches(c)`: every leading `c` removed.
pub open spec fn trim_start_char(s: Seq<char>, c: char) -> Seq<char>
    decreases s.len(),
{
    if s.len() > 0 && s[0] == c {
        trim_start_char(s.drop_first(), c)
    } else {
        s
    }
}

/// `trim_end_matches(c)`: every trailing `c` removed.
pub open spec fn trim_end_char(s: Seq<char>, c: char) -> Seq<char>
    decreases s.len(),
{
    if s.len() > 0 && s.last() == c {
        trim_end_char(s.drop_last(), c)
    } else {
        s
    }
}

/// `trim_matches(c)`: every leading and trailing `c` removed.
pub open spec fn trim_char(s: Seq<char>, c: char) -> Seq<char> {
    trim_end_char(trim_start_char(s, c), c)
}

/// `trim_start_matches(p)` for a non-empty `p`: every leading repetition of `p` removed.
pub open spec fn trim_start_str(s: Seq<char>, p: Seq<char>) -> Seq<char>
    decreases s.len(),
{
    if p.len() > 0 && has_prefix(s, p) {
        trim_start_str(s.skip(p.len() as int), p)
    } else {
        s
    }
}

/// The characters of `v` with every leading `c` removed.
pub fn trim_start_char_chars(v: &[char], c: char) -> (r: Vec<char>)
    ensures
        r@ == trim_start_char(v@, c),
{
    let mut a: usize = 0;
    proof {
        assert(v@.skip(0) =~= v@);
    }
    while a < v.len() && v[a] == c
        invariant
            a <= v.len(),
            trim_start_char(v@, c) == trim_start_char(v@.skip(a as int), c),
        decreases v.len() - a,
    {
        proof {
            assert(v@.skip(a as int).drop_first() =~= v@.skip(a as int + 1));
        }
        a = a + 1;
    }
    let mut r: Vec<char> = Vec::new();
    let mut i: usize = a;
    while i < v.len()
        invariant
            a <= i <= v.len(),
            r@ == v@.subrange(a as int, i as int),
        decreases v.len() - i,
    {
        r.push(v[i]);
        proof {
            assert(v@.subrange(a as int, i as int + 1) =~= v@.subrange(a as int, i as int).push(
                v@[i as int],
            ));
        }
        i = i + 1;
    }
    proof {
        assert(r@ =~= v@.skip(a as int));
    }
    r
}

/// The characters of `v` with every trailing `c` removed.
pub fn trim_end_char_chars(v: &[char], c: char) -> (r: Vec<char>)
    ensures
        r@ == trim_end_char(v@, c),
{
    let mut b: usize = v.len();
    proof {
        assert(v@.take(v@.len() as int) =~= v@);
    }
    while b > 0 && v[b - 1] == c
        invariant
            b <= v.len(),
            trim_end_char(v@, c) == trim_end_char(v@.take(b as int), c),
        decreases b,
    {
        proof {
            assert(v@.take(b as int).drop_last() =~= v@.take(b as int - 1));
        }
        b = b - 1;
    }
    let mut r: Vec<char> = Vec::new();
    let mut i: usize = 0;
    while i < b
        invariant
            i <= b <= v.len(),
            r@ == v@.take(i as int),
        decreases b - i,
    {
        r.push(v[i]);
        proof {
            assert(v@.take(i as int + 1) =~= v@.take(i as int).push(v@[i as int]));
        }
        i = i + 1;
    }
    r
}

/// The characters of `v` with every leading and trailing `c` removed.
pub fn trim_char_chars(v: &[char], c: char) -> (r: Vec<char>)
    ensures
        r@ == trim_char(v@, c),
{
    let a = trim_start_char_chars(v, c);
    trim_end_char_chars(a.as_slice(), c)
}

/// The characters of `v` with every leading repetition of the non-empty `p` removed.
pub fn trim_start_str_chars(v: &[char], p: &[char]) -> (r: Vec<char>)
    requires
        p@.len() > 0,
    ensures
        r@ == trim_start_str(v@, p@),
{
    let mut a: usize = 0;
    proof {
        assert(v@.skip(0) =~= v@);
    }
    while matches_at(v, p, a)
        invariant
            a <= v.len(),
            p@.len() > 0,
            trim_start_str(v@, p@) == trim_start_str(v@.skip(a as int), p@),
        decreases v.len() - a,
    {
        proof {
            let w = v@.skip(a as int);
            assert(w.take(p@.len() as int) =~= v@.subrange(a as int, a + p@.len()));
            assert(w.skip(p@.len() as int) =~= v@.skip(a + p@.len()));
        }
        a = a + p.len();
    }
    proof {
        let w = v@.skip(a as int);
        if has_prefix(w, p@) {
            assert(w.take(p@.len() as int) =~= v@.subrange(a as int, a + p@.len()));
        }
    }
    let mut r: Vec<char> = Vec::new();
    let mut i: usize = a;
    while i < v.len()
        invariant
            a <= i <= v.len(),
            r@ == v@.subrange(a as int, i as int),
        decreases v.len() - i,
    {
        r.push(v[i]);
        proof {
            assert(v@.subrange(a as int, i as int + 1) =~= v@.subrange(a as int, i as int).push(
                v@[i as int],
            ));
        }
        i = i + 1;
    }
    proof {
        assert(r@ =~= v@.skip(a as int));
    }
    r
}

/// The characters of `v`, then those of `w`.
pub fn concat_chars(v: &[char], w: &[char]) -> (r: Vec<char>)
    ensures
        r@ == v@ + w@,
{
    let mut r: Vec<char> = Vec::new();
    let mut i: usize = 0;
    while i < v.len()
        invariant
            i <= v.len(),
            r@ == v@.take(i as int),
        decreases v.len() - i,
    {
        r.push(v[i]);
        proof {
            assert(v@.take(i as int + 1) =~= v@.take(i as int).push(v@[i as int]));
        }
        i = i + 1;
    }
    let mut j: usize = 0;
    while j < w.len()
        invariant
            j <= w.len(),
            v@.take(v@.len() as int) == v@,
            r@ == v@ + w@.take(j as int),
        decreases w.len() - j,
    {
        r.push(w[j]);
        proof {
            assert(w@.take(j as int + 1) =~= w@.take(j as int).push(w@[j as int]));
        }
        j = j + 1;
    }
    proof {
        assert(w@.take(w@.len() as int) =~= w@);
    }
    r
}


// ---------------------------------------------------------------------------
// Scoring a text against query terms
// ---------------------------------------------------------------------------

/// Total number of occurrences of the terms in `hay`.
pub open spec fn terms_score(hay: Seq<char>, terms: Seq<Seq<char>>) -> nat
    decreases terms.len(),
{
    if terms.len() == 0 {
        0
    } else {
        terms_score(hay, terms.drop_last()) + count_occ(hay, terms.last())
    }
}

/// The terms of a query: its lower-cased words.
pub open spec fn query_terms(query: Seq<char>) -> Seq<Seq<char>> {
    words(unicode_lowercase(query))
}

/// Append the characters of `v`.
pub fn push_all(out: &mut Vec<char>, v: &[char])
    ensures
        final(out)@ == old(out)@ + v@,
{
    let mut i: usize = 0;
    while i < v.len()
        invariant
            i <= v.len(),
            out@ == old(out)@ + v@.take(i as int),
        decreases v.len() - i,
    {
        out.push(v[i]);
        proof {
            assert(v@.take(i as int + 1) =~= v@.take(i as int).push(v@[i as int]));
        }
        i = i + 1;
    }
    proof {
        assert(v@.take(v@.len() as int) =~= v@);
    }
}

/// The characters of the Unicode lower-casing of `s`.
pub fn lower_chars(s: &str) -> (r: Vec<char>)
    ensures
        r@ == unicode_lowercase(s@),
{
    let l = to_lowercase(s);
    chars_of(l.as_str())
}

/// How often the terms occur in `hay`, in total.
pub fn score_of(hay: &Vec<char>, terms: &Vec<Vec<char>>) -> (s: u128)
    ensures
        s == terms_score(hay@, vecs_view(terms@)),
{
    let ghost tv = vecs_view(terms@);
    let mut s: u128 = 0;
    let mut k: usize = 0;
    while k < terms.len()
        invariant
            k <= terms.len(),
            tv == vecs_view(terms@),
            s == terms_score(hay@, tv.take(k as int)),
            s <= (k as u128) * (usize::MAX as u128),
        decreases terms.len() - k,
    {
        let c = count_matches(hay.as_slice(), terms[k].as_slice());
        proof {
            assert(tv.take(k as int + 1).drop_last() =~= tv.take(k as int));
            assert(tv[k as int] == terms@[k as int]@);
            assert((k as u128) * (usize::MAX as u128) + (usize::MAX as u128) == ((k + 1) as u128)
                * (usize::MAX as u128)) by (nonlinear_arith);
            assert(((k + 1) as u128) * (usize::MAX as u128) <= (usize::MAX as u128) * (
            usize::MAX as u128)) by (nonlinear_arith)
                requires
                    k < usize::MAX,
            ;
        }
        s = s + c as u128;
        k = k + 1;
    }
    proof {
        assert(tv.take(terms@.len() as int) =~= tv);
    }
    s
}



// ---------------------------------------------------------------------------
// Lines
// ---------------------------------------------------------------------------

/// How often `c` occurs in `s`.
pub open spec fn count_char(s: Seq<char>, c: char) -> nat
    decreases s.len(),
{
    if s.len() == 0 {
        0
    } else {
        count_char(s.drop_last(), c) + if s.last() == c {
            1nat
        } else {
            0nat
        }
    }
}

/// The number of lines `str::lines` yields: one per line feed, plus one for a
/// last line that has none.
pub open spec fn line_count_spec(s: Seq<char>) -> nat {
    count_char(s, '\n') + if s.len() > 0 && s.last() != '\n' {
        1nat
    } else {
        0nat
    }
}

/// The number of lines of `s`.
pub fn line_count(s: &str) -> (n: usize)
    ensures
        n == line_count_spec(s@),
{
    let v = chars_of(s);
    let mut n: usize = 0;
    let mut i: usize = 0;
    while i < v.len()
        invariant
            i <= v.len(),
            n == count_char(v@.take(i as int), '\n'),
            n <= i,
            i > 0 && v@[i - 1] != '\n' ==> n < i,
        decreases v.len() - i,
    {
        proof {
            assert(v@.take(i as int + 1).drop_last() =~= v@.take(i as int));
        }
        if v[i] == '\n' {
            n = n + 1;
        }
        i = i + 1;
    }
    proof {
        assert(v@.take(v@.len() as int) =~= v@);
    }
    if v.len() > 0 && v[v.len() - 1] != '\n' {
        n = n + 1;
    }
    n
}


/// An occurrence of `n` in `a` is an occurrence in `a + b`, and one in `b` is one
/// in `a + b` too.
pub proof fn lemma_contains_concat(a: Seq<char>, b: Seq<char>, n: Seq<char>)
    ensures
        contains_seq(a, n) ==> contains_seq(a + b, n),
        contains_seq(b, n) ==> contains_seq(a + b, n),
{
    if contains_seq(a, n) {
        let i = choose|i: int| occurs_at(a, n, i);
        assert((a + b).subrange(i, i + n.len()) =~= a.subrange(i, i + n.len()));
        assert(occurs_at(a + b, n, i));
    }
    if contains_seq(b, n) {
        let i = choose|i: int| occurs_at(b, n, i);
        assert((a + b).subrange(a.len() + i, a.len() + i + n.len()) =~= b.subrange(i, i + n.len()));
        assert(occurs_at(a + b, n, a.len() + i));
    }
}

/// A text that contains a non-empty needle counts at least one occurrence of it.
pub proof fn lemma_contains_counts(h: Seq<char>, n: Seq<char>)
    requires
        n.len() > 0,
        contains_seq(h, n),
    ensures
        count_occ(h, n) >= 1,
    decreases h.len(),
{
    let i = choose|i: int| occurs_at(h, n, i);
    if h.take(n.len() as int) != n {
        if i == 0 {
            assert(h.subrange(0, n.len() as int) =~= h.take(n.len() as int));
        }
        assert(h.skip(1).subrange(i - 1, i - 1 + n.len()) =~= h.subrange(i, i + n.len()));
        assert(occurs_at(h.skip(1), n, i - 1));
        lemma_contains_counts(h.skip(1), n);
    }
}

/// The score of a text over some terms is at least the occurrences of any one of
/// them.
pub proof fn lemma_score_covers_term(hay: Seq<char>, terms: Seq<Seq<char>>, t: Seq<char>)
    requires
        terms.contains(t),
    ensures
        terms_score(hay, terms) >= count_occ(hay, t),
    decreases terms.len(),
{
    if terms.last() != t {
        let k = choose|k: int| 0 <= k < terms.len() && terms[k] == t;
        assert(terms.drop_last()[k] == t);
        lemma_score_covers_term(hay, terms.drop_last(), t);
    }
}

} // verus!
