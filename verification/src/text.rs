//! Character-sequence helpers over which the text contracts of the crate are stated.
//!
//! Text is handled as `Vec<char>` inside the library; the specifications speak of
//! `Seq<char>`, which is also the view of `String` and `&str`.
use vstd::prelude::*;

verus! {

/// Unicode `White_Space`, the set that `char::is_whitespace` and `str::trim` use.
pub open spec fn is_space(c: char) -> bool {
    let u = c as u32;
    ||| 0x9 <= u <= 0xd
    ||| u == 0x20
    ||| u == 0x85
    ||| u == 0xa0
    ||| u == 0x1680
    ||| 0x2000 <= u <= 0x200a
    ||| u == 0x2028
    ||| u == 0x2029
    ||| u == 0x202f
    ||| u == 0x205f
    ||| u == 0x3000
}

/// `s` with its leading white space removed.
pub open spec fn trim_start(s: Seq<char>) -> Seq<char>
    decreases s.len(),
{
    if s.len() > 0 && is_space(s[0]) {
        trim_start(s.drop_first())
    } else {
        s
    }
}

/// `s` with its trailing white space removed.
pub open spec fn trim_end(s: Seq<char>) -> Seq<char>
    decreases s.len(),
{
    if s.len() > 0 && is_space(s.last()) {
        trim_end(s.drop_last())
    } else {
        s
    }
}

/// `s` with white space removed at both ends, as `str::trim` does.
pub open spec fn trim(s: Seq<char>) -> Seq<char> {
    trim_end(trim_start(s))
}

/// `p` occurs in `s` at position `i`.
pub open spec fn occurs_at(s: Seq<char>, p: Seq<char>, i: int) -> bool {
    0 <= i && i + p.len() <= s.len() && s.subrange(i, i + p.len()) == p
}

/// `p` occurs somewhere in `s`, as `str::contains` with a string pattern decides.
pub open spec fn has_infix(s: Seq<char>, p: Seq<char>) -> bool {
    exists|i: int| occurs_at(s, p, i)
}

/// The last position below `n` at which `c` stands in `s`.
pub open spec fn last_index_below(s: Seq<char>, c: char, n: int) -> Option<int>
    decreases n,
{
    if n <= 0 {
        None
    } else if s[n - 1] == c {
        Some(n - 1)
    } else {
        last_index_below(s, c, n - 1)
    }
}

/// The last position of `c` in `s`, as `str::rfind` with a `char` pattern gives it.
pub open spec fn last_index(s: Seq<char>, c: char) -> Option<int> {
    last_index_below(s, c, s.len() as int)
}

/// `s` is a string of white space only (possibly empty).
pub open spec fn is_blank(s: Seq<char>) -> bool {
    trim(s).len() == 0
}

pub proof fn lemma_trim_start_skip(s: Seq<char>, k: int)
    requires
        0 <= k <= s.len(),
        forall|i: int| 0 <= i < k ==> is_space(#[trigger] s[i]),
    ensures
        trim_start(s) == trim_start(s.subrange(k, s.len() as int)),
    decreases k,
{
    if k == 0 {
        assert(s.subrange(0, s.len() as int) =~= s);
    } else {
        let t = s.drop_first();
        assert forall|i: int| 0 <= i < k - 1 implies is_space(#[trigger] t[i]) by {
            assert(t[i] == s[i + 1]);
        }
        lemma_trim_start_skip(t, k - 1);
        assert(t.subrange(k - 1, t.len() as int) =~= s.subrange(k, s.len() as int));
    }
}

pub proof fn lemma_trim_end_skip(s: Seq<char>, k: int)
    requires
        0 <= k <= s.len(),
        forall|i: int| k <= i < s.len() ==> is_space(#[trigger] s[i]),
    ensures
        trim_end(s) == trim_end(s.subrange(0, k)),
    decreases s.len() - k,
{
    if k == s.len() {
        assert(s.subrange(0, k) =~= s);
    } else {
        let t = s.drop_last();
        assert forall|i: int| k <= i < t.len() implies is_space(#[trigger] t[i]) by {
            assert(t[i] == s[i]);
        }
        lemma_trim_end_skip(t, k);
        assert(t.subrange(0, k) =~= s.subrange(0, k));
    }
}

/// Trimming a range `[a, b)` whose ends were found by scanning gives the range itself.
pub proof fn lemma_trim_bounds(s: Seq<char>, a: int, b: int)
    requires
        0 <= a <= b <= s.len(),
        forall|i: int| 0 <= i < a ==> is_space(#[trigger] s[i]),
        forall|i: int| b <= i < s.len() ==> is_space(#[trigger] s[i]),
        a < b ==> !is_space(s[a]) && !is_space(s[b - 1]),
        a == b ==> b == s.len(),
    ensures
        trim(s) == s.subrange(a, b),
{
    lemma_trim_start_skip(s, a);
    let t = s.subrange(a, s.len() as int);
    if a < s.len() {
        assert(t[0] == s[a]);
    }
    assert(trim_start(t) == t);
    assert forall|i: int| b - a <= i < t.len() implies is_space(#[trigger] t[i]) by {
        assert(t[i] == s[i + a]);
    }
    lemma_trim_end_skip(t, b - a);
    let u = t.subrange(0, b - a);
    assert(u =~= s.subrange(a, b));
    if b - a > 0 {
        assert(u.last() == s[b - 1]);
    }
}

pub proof fn lemma_last_index_below(s: Seq<char>, c: char, n: int)
    requires
        n <= s.len(),
    ensures
        last_index_below(s, c, n) matches Some(k) ==> 0 <= k < n && s[k] == c,
        last_index_below(s, c, n) is None ==> forall|i: int| 0 <= i < n ==> s[i] != c,
    decreases n,
{
    if n > 0 && s[n - 1] != c {
        lemma_last_index_below(s, c, n - 1);
    }
}

/// The decimal digit character of `d < 10`.
pub open spec fn digit_char(d: int) -> char {
    (48 + d) as char
}

/// The decimal notation of `n`, as `Display` for unsigned integers writes it.
pub open spec fn decimal(n: nat) -> Seq<char>
    decreases n,
{
    if n < 10 {
        seq![digit_char(n as int)]
    } else {
        decimal(n / 10) + seq![digit_char((n % 10) as int)]
    }
}

/// The decimal notation of `n`.
pub fn decimal_chars(n: u64) -> (r: Vec<char>)
    ensures
        r@ == decimal(n as nat),
    decreases n,
{
    let d = (n % 10) as u8;
    let c = (48u8 + d) as char;
    assert(c == digit_char(d as int));
    if n < 10 {
        vec![c]
    } else {
        let mut v = decimal_chars(n / 10);
        v.push(c);
        v
    }
}

/// The character sequences of a vector of character vectors.
pub open spec fn char_views(v: Seq<Vec<char>>) -> Seq<Seq<char>> {
    v.map_values(|x: Vec<char>| x@)
}

/// The concatenation of all sequences in `parts`.
pub open spec fn concat_all(parts: Seq<Seq<char>>) -> Seq<char>
    decreases parts.len(),
{
    if parts.len() == 0 {
        seq![]
    } else {
        concat_all(parts.drop_last()) + parts.last()
    }
}

/// Whether `t` is one of `items`.
pub fn contains_text(items: &Vec<Vec<char>>, t: &Vec<char>) -> (r: bool)
    ensures
        r == char_views(items@).contains(t@),
{
    let mut i: usize = 0;
    while i < items.len()
        invariant
            0 <= i <= items.len(),
            forall|k: int| 0 <= k < i ==> items@[k]@ != t@,
        decreases items.len() - i,
    {
        if chars_equal(&items[i], t) {
            assert(char_views(items@)[i as int] == t@);
            return true;
        }
        i = i + 1;
    }
    proof {
        if char_views(items@).contains(t@) {
            let k = choose|k: int| 0 <= k < char_views(items@).len() && char_views(items@)[k] == t@;
            assert(items@[k]@ == t@);
        }
    }
    false
}

/// All items joined with nothing in between (`[String]::join("")`).
pub fn join_texts(items: &Vec<Vec<char>>) -> (r: Vec<char>)
    ensures
        r@ == concat_all(char_views(items@)),
{
    let mut out: Vec<char> = Vec::new();
    let mut i: usize = 0;
    while i < items.len()
        invariant
            0 <= i <= items.len(),
            out@ == concat_all(char_views(items@).take(i as int)),
        decreases items.len() - i,
    {
        proof {
            let t = char_views(items@).take(i + 1);
            assert(t.drop_last() =~= char_views(items@).take(i as int));
            assert(t.last() == items@[i as int]@);
        }
        out = concat_chars(&out, &items[i]);
        i = i + 1;
    }
    assert(char_views(items@).take(items.len() as int) =~= char_views(items@));
    out
}

/// Copies the characters of a string slice into a vector.
pub fn chars_of(s: &str) -> (r: Vec<char>)
    ensures
        r@ == s@,
{
    broadcast use vstd::string::axiom_spec_iter;

    let mut out: Vec<char> = Vec::new();
    for c in it: s.chars()
        invariant
            out@ == it.seq().take(it.index() as int),
    {
        out.push(c);
    }
    out
}

/// Builds a `String` from characters, in order.
///
/// Calls std's `String::from_iter`; the contract claims that the string holds
/// exactly the given characters in the given order, as std documents.
#[verifier::external_body]
pub(crate) fn string_of(chars: &Vec<char>) -> (r: String)
    ensures
        r@ == chars@,
{
    String::from_iter(chars.iter())
}

/// Whether `c` is white space (`char::is_whitespace`).
pub fn char_is_space(c: char) -> (r: bool)
    ensures
        r == is_space(c),
{
    let u = c as u32;
    (0x9 <= u && u <= 0xd) || u == 0x20 || u == 0x85 || u == 0xa0 || u == 0x1680 || (0x2000 <= u
        && u <= 0x200a) || u == 0x2028 || u == 0x2029 || u == 0x202f || u == 0x205f || u == 0x3000
}

/// Copies `s[lo..hi]`.
pub fn slice_chars(s: &Vec<char>, lo: usize, hi: usize) -> (r: Vec<char>)
    requires
        lo <= hi <= s.len(),
    ensures
        r@ == s@.subrange(lo as int, hi as int),
{
    let mut out: Vec<char> = Vec::new();
    let mut i = lo;
    while i < hi
        invariant
            lo <= i <= hi <= s.len(),
            out@ == s@.subrange(lo as int, i as int),
        decreases hi - i,
    {
        out.push(s[i]);
        i = i + 1;
        assert(out@ =~= s@.subrange(lo as int, i as int));
    }
    out
}

/// `s[lo..hi]` with white space removed at both ends (`str::trim`).
pub fn trim_range(s: &Vec<char>, lo: usize, hi: usize) -> (r: Vec<char>)
    requires
        lo <= hi <= s.len(),
    ensures
        r@ == trim(s@.subrange(lo as int, hi as int)),
{
    let ghost w = s@.subrange(lo as int, hi as int);
    let mut a = lo;
    while a < hi && char_is_space(s[a])
        invariant
            lo <= a <= hi <= s.len(),
            w == s@.subrange(lo as int, hi as int),
            forall|i: int| 0 <= i < a - lo ==> is_space(#[trigger] w[i]),
        decreases hi - a,
    {
        assert(w[a - lo] == s@[a as int]);
        a = a + 1;
    }
    let mut b = hi;
    while b > a && char_is_space(s[b - 1])
        invariant
            lo <= a <= b <= hi <= s.len(),
            w == s@.subrange(lo as int, hi as int),
            forall|i: int| b - lo <= i < w.len() ==> is_space(#[trigger] w[i]),
        decreases b - a,
    {
        assert(w[b - 1 - lo] == s@[b - 1]);
        b = b - 1;
    }
    proof {
        if a < b {
            assert(w[a - lo] == s@[a as int]);
            assert(w[b - 1 - lo] == s@[b - 1]);
        } else {
            assert forall|i: int| a - lo <= i < w.len() implies is_space(#[trigger] w[i]) by {
                if a < hi && i == a - lo {
                    assert(w[a - lo] == s@[a as int]);
                }
            }
        }
        if a == b && a < hi {
            // every character of the range is white space: the range trims to nothing
            assert forall|i: int| 0 <= i < w.len() implies is_space(#[trigger] w[i]) by {}
            lemma_trim_bounds(w, w.len() as int, w.len() as int);
            assert(w.subrange(w.len() as int, w.len() as int) =~= w.subrange(a - lo, b - lo));
        } else {
            lemma_trim_bounds(w, a - lo, b - lo);
        }
        assert(w.subrange(a - lo, b - lo) =~= s@.subrange(a as int, b as int));
    }
    slice_chars(s, a, b)
}

/// `str::trim` on a string slice.
pub fn trim_str(s: &str) -> (r: Vec<char>)
    ensures
        r@ == trim(s@),
{
    let v = chars_of(s);
    assert(v@.subrange(0, v@.len() as int) =~= v@);
    trim_range(&v, 0, v.len())
}

/// Whether `p` occurs at position `i` of `s`.
pub fn matches_at(s: &Vec<char>, p: &Vec<char>, i: usize) -> (r: bool)
    ensures
        r == occurs_at(s@, p@, i as int),
{
    if i > s.len() || p.len() > s.len() - i {
        return false;
    }
    let mut j: usize = 0;
    while j < p.len()
        invariant
            i + p.len() <= s.len(),
            0 <= j <= p.len(),
            forall|k: int| 0 <= k < j ==> s@[i + k] == p@[k],
        decreases p.len() - j,
    {
        if s[i + j] != p[j] {
            proof {
                assert(s@.subrange(i as int, i + p.len())[j as int] == s@[i + j]);
            }
            return false;
        }
        j = j + 1;
    }
    assert(s@.subrange(i as int, i + p.len()) =~= p@);
    true
}

/// Whether `p` occurs in `s` (`str::contains` with a string pattern).
pub fn contains_chars(s: &Vec<char>, p: &Vec<char>) -> (r: bool)
    ensures
        r == has_infix(s@, p@),
{
    if p.len() > s.len() {
        return false;
    }
    let last = s.len() - p.len();
    let mut i: usize = 0;
    loop
        invariant
            last == s.len() - p.len(),
            0 <= i <= last,
            forall|k: int| 0 <= k < i ==> !occurs_at(s@, p@, k),
        decreases last - i,
    {
        if matches_at(s, p, i) {
            return true;
        }
        if i == last {
            return false;
        }
        i = i + 1;
    }
}

/// The last position of `c` in `s` (`str::rfind` with a `char` pattern).
pub fn last_index_of(s: &Vec<char>, c: char) -> (r: Option<usize>)
    ensures
        r matches Some(k) ==> last_index(s@, c) == Some(k as int),
        r is None ==> last_index(s@, c) is None,
{
    let mut n = s.len();
    while n > 0
        invariant
            n <= s.len(),
            last_index(s@, c) == last_index_below(s@, c, n as int),
        decreases n,
    {
        if s[n - 1] == c {
            return Some(n - 1);
        }
        n = n - 1;
    }
    None
}

/// Whether `s` ends with `c`.
pub fn ends_with_char(s: &Vec<char>, c: char) -> (r: bool)
    ensures
        r == (s@.len() > 0 && s@.last() == c),
{
    s.len() > 0 && s[s.len() - 1] == c
}

/// `a` followed by `b`.
pub fn concat_chars(a: &Vec<char>, b: &Vec<char>) -> (r: Vec<char>)
    ensures
        r@ == a@ + b@,
{
    let mut out = a.clone();
    let mut i: usize = 0;
    while i < b.len()
        invariant
            0 <= i <= b.len(),
            out@ == a@ + b@.subrange(0, i as int),
        decreases b.len() - i,
    {
        out.push(b[i]);
        i = i + 1;
        assert(out@ =~= a@ + b@.subrange(0, i as int));
    }
    assert(b@.subrange(0, b.len() as int) =~= b@);
    out
}

/// Whether two character vectors are equal.
pub fn chars_equal(a: &Vec<char>, b: &Vec<char>) -> (r: bool)
    ensures
        r == (a@ == b@),
{
    if a.len() != b.len() {
        return false;
    }
    let mut i: usize = 0;
    while i < a.len()
        invariant
            a.len() == b.len(),
            0 <= i <= a.len(),
            forall|k: int| 0 <= k < i ==> a@[k] == b@[k],
        decreases a.len() - i,
    {
        if a[i] != b[i] {
            return false;
        }
        i = i + 1;
    }
    assert(a@ =~= b@);
    true
}

/// The first position of `c` in `s`, if `c` occurs.
pub open spec fn first_index(s: Seq<char>, c: char) -> Option<int>
    decreases s.len(),
{
    if s.len() == 0 {
        None
    } else {
        match first_index(s.drop_last(), c) {
            Some(i) => Some(i),
            None => if s.last() == c {
                Some(s.len() - 1)
            } else {
                None
            },
        }
    }
}

proof fn lemma_first_index_found(s: Seq<char>, c: char)
    ensures
        first_index(s, c) matches Some(i) ==> 0 <= i < s.len() && s[i] == c,
    decreases s.len(),
{
    if s.len() > 0 {
        lemma_first_index_found(s.drop_last(), c);
    }
}

proof fn lemma_first_index_prefix(s: Seq<char>, c: char, n: int)
    requires
        0 <= n <= s.len(),
        first_index(s.take(n), c) is Some,
    ensures
        first_index(s, c) == first_index(s.take(n), c),
    decreases s.len(),
{
    if n == s.len() {
        assert(s.take(n) =~= s);
    } else {
        assert(s.drop_last().take(n) =~= s.take(n));
        lemma_first_index_prefix(s.drop_last(), c, n);
    }
}

/// The first position of `c` in `s`.
pub fn first_index_of(s: &Vec<char>, c: char) -> (r: Option<usize>)
    ensures
        match r {
            Some(i) => first_index(s@, c) == Some(i as int),
            None => first_index(s@, c) is None,
        },
{
    let mut i: usize = 0;
    while i < s.len()
        invariant
            0 <= i <= s.len(),
            first_index(s@.take(i as int), c) is None,
        decreases s.len() - i,
    {
        proof {
            assert(s@.take(i + 1).drop_last() =~= s@.take(i as int));
            assert(s@.take(i + 1).last() == s@[i as int]);
        }
        if s[i] == c {
            proof {
                lemma_first_index_prefix(s@, c, i + 1);
            }
            return Some(i);
        }
        i = i + 1;
    }
    assert(s@.take(s.len() as int) =~= s@);
    None
}

/// A pair's longitude and latitude texts: what stands before and after its
/// first comma, each trimmed; nothing where the pair has no comma.
pub open spec fn pair_fields(pair: Seq<char>) -> Option<(Seq<char>, Seq<char>)> {
    match first_index(pair, ',') {
        Some(i) => Some((trim(pair.take(i)), trim(pair.skip(i + 1)))),
        None => None,
    }
}

/// Cuts `pair` at its first comma, each side trimmed (`split_once(',')`, then
/// `trim` on both sides).
pub fn comma_fields(pair: &Vec<char>) -> (r: Option<(String, String)>)
    ensures
        match pair_fields(pair@) {
            Some(f) => r is Some && r.unwrap().0@ == f.0 && r.unwrap().1@ == f.1,
            None => r is None,
        },
{
    match first_index_of(pair, ',') {
        Some(i) => {
            proof {
                lemma_first_index_found(pair@, ',');
                assert(pair@.subrange(0, i as int) =~= pair@.take(i as int));
                assert(pair@.subrange(i + 1, pair@.len() as int) =~= pair@.skip(i + 1));
            }
            let before = trim_range(pair, 0, i);
            let after = trim_range(pair, i + 1, pair.len());
            Some((string_of(&before), string_of(&after)))
        },
        None => None,
    }
}

/// `text.trim()` cut at its first comma, each side trimmed.
pub fn trimmed_comma_fields(text: &str) -> (r: Option<(String, String)>)
    ensures
        match pair_fields(trim(text@)) {
            Some(f) => r is Some && r.unwrap().0@ == f.0 && r.unwrap().1@ == f.1,
            None => r is None,
        },
{
    comma_fields(&trim_str(text))
}

} // verus!
