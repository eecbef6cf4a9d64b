use vstd::prelude::*;
use vstd::string::*;

verus! {

/// `String::push`, taken on trust: the character is appended at the end of the string.
#[verifier::external_body]
pub(crate) fn push_char(s: &mut String, c: char)
    ensures
        final(s)@ == old(s)@.push(c),
{
    s.push(c)
}

/// The characters of a string slice, in order.
pub fn chars_of(s: &str) -> (v: Vec<char>)
    ensures
        v@ == s@,
{
    let mut v: Vec<char> = Vec::new();
    for c in it: s.chars()
        invariant
            v@ == it.seq().take(it.index() as int),
    {
        v.push(c);
    }
    v
}

pub open spec fn digit_char(d: nat) -> char {
    ((48 + d) as u8) as char
}

/// Unicode `White_Space` characters, the set that `char::is_whitespace` tests for.
pub open spec fn is_ws(c: char) -> bool {
    let u = c as u32;
    ||| 0x9 <= u <= 0xD
    ||| u == 0x20
    ||| u == 0x85
    ||| u == 0xA0
    ||| u == 0x1680
    ||| 0x2000 <= u <= 0x200A
    ||| u == 0x2028
    ||| u == 0x2029
    ||| u == 0x202F
    ||| u == 0x205F
    ||| u == 0x3000
}

/// Whether `c` is a Unicode white-space character.
pub fn is_whitespace(c: char) -> (b: bool)
    ensures
        b == is_ws(c),
{
    let u = c as u32;
    (0x9 <= u && u <= 0xD) || u == 0x20 || u == 0x85 || u == 0xA0 || u == 0x1680 || (0x2000 <= u
        && u <= 0x200A) || u == 0x2028 || u == 0x2029 || u == 0x202F || u == 0x205F || u == 0x3000
}

/// `s` without its leading white space.
pub open spec fn trim_start_seq(s: Seq<char>) -> Seq<char>
    decreases s.len(),
{
    if s.len() > 0 && is_ws(s[0]) {
        trim_start_seq(s.drop_first())
    } else {
        s
    }
}

/// `s` without its trailing white space.
pub open spec fn trim_end_seq(s: Seq<char>) -> Seq<char>
    decreases s.len(),
{
    if s.len() > 0 && is_ws(s.last()) {
        trim_end_seq(s.drop_last())
    } else {
        s
    }
}

/// `s` without leading and trailing white space.
pub open spec fn trim_seq(s: Seq<char>) -> Seq<char> {
    trim_end_seq(trim_start_seq(s))
}

/// Number of leading white-space characters of `s.skip(i)`, as an index into `s`.
proof fn lemma_trim_start_skip(s: Seq<char>, i: int)
    requires
        0 <= i < s.len(),
        is_ws(s[i]),
    ensures
        trim_start_seq(s.skip(i)) == trim_start_seq(s.skip(i + 1)),
{
    assert(s.skip(i).drop_first() == s.skip(i + 1));
}

proof fn lemma_trim_end_take(s: Seq<char>, j: int)
    requires
        0 < j <= s.len(),
        is_ws(s[j - 1]),
    ensures
        trim_end_seq(s.take(j)) == trim_end_seq(s.take(j - 1)),
{
    assert(s.take(j).drop_last() == s.take(j - 1));
}

/// Index of the first character of `v` at or after `from` that is not white space
/// (or `v.len()` when there is none).
fn skip_ws(v: &Vec<char>, from: usize) -> (i: usize)
    requires
        from <= v.len(),
    ensures
        from <= i <= v.len(),
        trim_start_seq(v@.skip(from as int)) == v@.skip(i as int),
        forall|k: int| from <= k < i ==> is_ws(#[trigger] v@[k]),
        i == v.len() || !is_ws(v@[i as int]),
{
    let mut i = from;
    while i < v.len() && is_whitespace(v[i])
        invariant
            from <= i <= v.len(),
            trim_start_seq(v@.skip(from as int)) == trim_start_seq(v@.skip(i as int)),
            forall|k: int| from <= k < i ==> is_ws(#[trigger] v@[k]),
        decreases v.len() - i,
    {
        proof {
            lemma_trim_start_skip(v@, i as int);
        }
        i = i + 1;
    }
    proof {
        if i < v.len() {
            assert(v@.skip(i as int)[0] == v@[i as int]);
        }
    }
    i
}

/// The end of `v.take(to)` once its trailing white space is dropped.
fn back_ws(v: &Vec<char>, to: usize) -> (j: usize)
    requires
        to <= v.len(),
    ensures
        j <= to,
        trim_end_seq(v@.take(to as int)) == v@.take(j as int),
        forall|k: int| j <= k < to ==> is_ws(#[trigger] v@[k]),
        j == 0 || !is_ws(v@[j - 1]),
{
    let mut j = to;
    while j > 0 && is_whitespace(v[j - 1])
        invariant
            j <= to <= v.len(),
            trim_end_seq(v@.take(to as int)) == trim_end_seq(v@.take(j as int)),
            forall|k: int| j <= k < to ==> is_ws(#[trigger] v@[k]),
        decreases j,
    {
        proof {
            lemma_trim_end_take(v@, j as int);
        }
        j = j - 1;
    }
    proof {
        if j > 0 {
            assert(v@.take(j as int).last() == v@[j - 1]);
        }
    }
    j
}

/// Characterization of `trim_end_seq` by the position where the trailing white space starts.
pub proof fn lemma_trim_end_at(x: Seq<char>, j: int)
    requires
        0 <= j <= x.len(),
        forall|k: int| j <= k < x.len() ==> is_ws(#[trigger] x[k]),
        j == 0 || !is_ws(x[j - 1]),
    ensures
        trim_end_seq(x) == x.take(j),
    decreases x.len() - j,
{
    if j == x.len() {
        assert(x.take(j) == x);
    } else {
        assert(x.drop_last().take(j) == x.take(j));
        lemma_trim_end_at(x.drop_last(), j);
    }
}

/// Characterization of `trim_start_seq` by the position where the leading white space ends.
pub proof fn lemma_trim_start_at(x: Seq<char>, i: int)
    requires
        0 <= i <= x.len(),
        forall|k: int| 0 <= k < i ==> is_ws(#[trigger] x[k]),
        i == x.len() || !is_ws(x[i]),
    ensures
        trim_start_seq(x) == x.skip(i),
    decreases i,
{
    if i == 0 {
        assert(x.skip(0) == x);
    } else {
        assert(x.drop_first().skip(i - 1) == x.skip(i));
        lemma_trim_start_at(x.drop_first(), i - 1);
    }
}

/// The characters `v[i..j]` as a string.
pub fn slice_string(v: &Vec<char>, i: usize, j: usize) -> (s: String)
    requires
        i <= j <= v.len(),
    ensures
        s@ == v@.subrange(i as int, j as int),
{
    let mut s = String::new();
    let mut k = i;
    while k < j
        invariant
            i <= k <= j <= v.len(),
            s@ == v@.subrange(i as int, k as int),
        decreases j - k,
    {
        push_char(&mut s, v[k]);
        assert(v@.subrange(i as int, k + 1) == v@.subrange(i as int, k as int).push(v@[k as int]));
        k = k + 1;
    }
    s
}

/// Bounds `(i, j)` of `trim_seq(v@)` inside `v`.
pub fn trim_bounds(v: &Vec<char>) -> (r: (usize, usize))
    ensures
        r.0 <= r.1 <= v.len(),
        trim_seq(v@) == v@.subrange(r.0 as int, r.1 as int),
{
    let i = skip_ws(v, 0);
    let j = back_ws(v, v.len());
    assert(v@.skip(0) == v@);
    proof {
        lemma_trim_start_at(v@, i as int);
    }
    if i >= j {
        proof {
            if i < v.len() {
                assert(!is_ws(v@[i as int]));
                assert(false);
            }
            assert(v@.skip(i as int).len() == 0);
            lemma_trim_end_at(v@.skip(i as int), 0);
        }
        (i, i)
    } else {
        proof {
            let x = v@.skip(i as int);
            assert forall|k: int| j - i <= k < x.len() implies is_ws(#[trigger] x[k]) by {
                assert(x[k] == v@[k + i]);
            }
            lemma_trim_end_at(x, j - i);
            assert(x.take(j - i) == v@.subrange(i as int, j as int));
        }
        (i, j)
    }
}

/// `str::trim`: the string without leading and trailing white space.
pub fn trim(s: &str) -> (r: String)
    ensures
        r@ == trim_seq(s@),
{
    let v = chars_of(s);
    let (i, j) = trim_bounds(&v);
    slice_string(&v, i, j)
}

/// `str::trim_start`: the string without its leading white space.
pub fn trim_start(s: &str) -> (r: String)
    ensures
        r@ == trim_start_seq(s@),
{
    let v = chars_of(s);
    let i = skip_ws(&v, 0);
    assert(v@.skip(0) == v@);
    slice_string(&v, i, v.len())
}

/// `p` occurs in `s` starting at index `i`.
pub open spec fn matches_at(s: Seq<char>, i: int, p: Seq<char>) -> bool {
    0 <= i && i + p.len() <= s.len() && s.subrange(i, i + p.len()) == p
}

pub open spec fn starts_with_seq(s: Seq<char>, p: Seq<char>) -> bool {
    matches_at(s, 0, p)
}

pub open spec fn ends_with_seq(s: Seq<char>, p: Seq<char>) -> bool {
    matches_at(s, s.len() - p.len(), p)
}

pub open spec fn contains_seq(s: Seq<char>, p: Seq<char>) -> bool {
    exists|i: int| matches_at(s, i, p)
}

/// Whether `p` occurs in `v` at index `i`.
pub fn matches_at_exec(v: &Vec<char>, i: usize, p: &Vec<char>) -> (b: bool)
    ensures
        b == matches_at(v@, i as int, p@),
{
    if p.len() > v.len() || i > v.len() - p.len() {
        return false;
    }
    let mut k: usize = 0;
    while k < p.len()
        invariant
            k <= p.len(),
            i + p.len() <= v.len(),
            forall|m: int| 0 <= m < k ==> v@[i + m] == p@[m],
        decreases p.len() - k,
    {
        if v[i + k] != p[k] {
            proof {
                assert(v@.subrange(i as int, i + p.len())[k as int] == v@[i + k]);
            }
            return false;
        }
        k = k + 1;
    }
    assert(v@.subrange(i as int, i + p.len()) =~= p@);
    true
}

/// `str::starts_with` for a string pattern.
pub fn starts_with(s: &str, p: &str) -> (b: bool)
    ensures
        b == starts_with_seq(s@, p@),
{
    let v = chars_of(s);
    let w = chars_of(p);
    matches_at_exec(&v, 0, &w)
}

/// `str::ends_with` for a string pattern.
pub fn ends_with(s: &str, p: &str) -> (b: bool)
    ensures
        b == ends_with_seq(s@, p@),
{
    let v = chars_of(s);
    let w = chars_of(p);
    if w.len() > v.len() {
        return false;
    }
    matches_at_exec(&v, v.len() - w.len(), &w)
}

/// Equality of two string slices.
pub fn str_eq(a: &str, b: &str) -> (r: bool)
    ensures
        r == (a@ === b@),
{
    let v = chars_of(a);
    let w = chars_of(b);
    if v.len() != w.len() {
        return false;
    }
    let r = matches_at_exec(&v, 0, &w);
    proof {
        assert(v@.subrange(0, w@.len() as int) == v@);
    }
    r
}

/// Whether `p` occurs in `v`.
pub fn contains_chars(v: &Vec<char>, p: &Vec<char>) -> (b: bool)
    ensures
        b == contains_seq(v@, p@),
{
    if p.len() == 0 {
        assert(v@.subrange(0, 0) =~= p@);
        assert(matches_at(v@, 0, p@));
        return true;
    }
    if p.len() > v.len() {
        return false;
    }
    let mut i: usize = 0;
    while i <= v.len() - p.len()
        invariant
            p@.len() > 0,
            p@.len() <= v@.len(),
            forall|k: int| 0 <= k < i ==> !matches_at(v@, k, p@),
        decreases v.len() - i,
    {
        if matches_at_exec(v, i, p) {
            return true;
        }
        i = i + 1;
    }
    assert forall|k: int| !matches_at(v@, k, p@) by {
        if i <= k {
            assert(k + p@.len() > v@.len());
        }
    }
    false
}

/// `str::contains` for a string pattern.
pub fn contains(s: &str, p: &str) -> (b: bool)
    ensures
        b == contains_seq(s@, p@),
{
    let v = chars_of(s);
    let w = chars_of(p);
    contains_chars(&v, &w)
}

/// `str::strip_prefix`: what follows `p` when `s` starts with it.
pub open spec fn strip_prefix_seq(s: Seq<char>, p: Seq<char>) -> Option<Seq<char>> {
    if starts_with_seq(s, p) {
        Some(s.skip(p.len() as int))
    } else {
        None
    }
}

/// `str::strip_suffix`: what precedes `p` when `s` ends with it.
pub open spec fn strip_suffix_seq(s: Seq<char>, p: Seq<char>) -> Option<Seq<char>> {
    if ends_with_seq(s, p) {
        Some(s.take(s.len() - p.len()))
    } else {
        None
    }
}

/// `str::strip_prefix` for a string pattern.
pub fn strip_prefix(s: &str, p: &str) -> (r: Option<String>)
    ensures
        r matches Some(t) ==> strip_prefix_seq(s@, p@) == Some(t@),
        r is None ==> strip_prefix_seq(s@, p@) is None,
{
    let v = chars_of(s);
    let w = chars_of(p);
    if matches_at_exec(&v, 0, &w) {
        Some(slice_string(&v, w.len(), v.len()))
    } else {
        None
    }
}

/// `str::strip_suffix` for a string pattern.
pub fn strip_suffix(s: &str, p: &str) -> (r: Option<String>)
    ensures
        r matches Some(t) ==> strip_suffix_seq(s@, p@) == Some(t@),
        r is None ==> strip_suffix_seq(s@, p@) is None,
{
    let v = chars_of(s);
    let w = chars_of(p);
    if w.len() <= v.len() && matches_at_exec(&v, v.len() - w.len(), &w) {
        Some(slice_string(&v, 0, v.len() - w.len()))
    } else {
        None
    }
}

/// `str::replace` with a non-empty pattern: every non-overlapping occurrence of `pat`,
/// scanning from the left, is replaced by `rep`.
pub open spec fn replace_seq(s: Seq<char>, pat: Seq<char>, rep: Seq<char>) -> Seq<char>
    recommends
        pat.len() > 0,
    decreases s.len(),
{
    if s.len() == 0 || pat.len() == 0 {
        s
    } else if matches_at(s, 0, pat) {
        rep + replace_seq(s.skip(pat.len() as int), pat, rep)
    } else {
        seq![s[0]] + replace_seq(s.drop_first(), pat, rep)
    }
}

proof fn lemma_matches_at_skip(s: Seq<char>, i: int, p: Seq<char>)
    requires
        0 <= i <= s.len(),
    ensures
        matches_at(s.skip(i), 0, p) == matches_at(s, i, p),
{
    if i + p.len() <= s.len() {
        assert(s.skip(i).subrange(0, p.len() as int) == s.subrange(i, i + p.len()));
    }
}

/// `str::replace` for a non-empty string pattern.
pub fn replace(s: &str, pat: &str, rep: &str) -> (r: String)
    requires
        pat@.len() > 0,
    ensures
        r@ == replace_seq(s@, pat@, rep@),
{
    let v = chars_of(s);
    let w = chars_of(pat);
    let mut out = String::new();
    let mut i: usize = 0;
    assert(v@.skip(0) == v@);
    while i < v.len()
        invariant
            i <= v.len(),
            w@ == pat@,
            w@.len() > 0,
            replace_seq(v@, w@, rep@) == out@ + replace_seq(v@.skip(i as int), w@, rep@),
        decreases v.len() - i,
    {
        proof {
            lemma_matches_at_skip(v@, i as int, w@);
        }
        if matches_at_exec(&v, i, &w) {
            out.append(rep);
            proof {
                assert(v@.skip(i as int).skip(w@.len() as int) == v@.skip(i + w@.len()));
            }
            i = i + w.len();
        } else {
            push_char(&mut out, v[i]);
            proof {
                assert(v@.skip(i as int).drop_first() == v@.skip(i + 1));
                assert(v@.skip(i as int)[0] == v@[i as int]);
            }
            i = i + 1;
        }
    }
    proof {
        assert(v@.skip(i as int).len() == 0);
        assert(out@ + seq![] == out@);
    }
    out
}

/// `str::trim_end_matches` for a non-empty string pattern: the pattern is removed from the
/// end as long as the string ends with it.
pub open spec fn trim_end_matches_seq(s: Seq<char>, p: Seq<char>) -> Seq<char>
    decreases s.len(),
{
    if p.len() > 0 && ends_with_seq(s, p) {
        trim_end_matches_seq(s.take(s.len() - p.len()), p)
    } else {
        s
    }
}

/// `str::trim_start_matches` for a single character.
pub open spec fn trim_start_char_seq(s: Seq<char>, c: char) -> Seq<char>
    decreases s.len(),
{
    if s.len() > 0 && s[0] == c {
        trim_start_char_seq(s.drop_first(), c)
    } else {
        s
    }
}

/// Length left in `v.take(to)` once every trailing `p` is removed.
pub fn trim_end_matches_len(v: &Vec<char>, to: usize, p: &Vec<char>) -> (j: usize)
    requires
        to <= v.len(),
        p@.len() > 0,
    ensures
        j <= to,
        trim_end_matches_seq(v@.take(to as int), p@) == v@.take(j as int),
{
    let mut j = to;
    while j >= p.len() && matches_at_exec(v, j - p.len(), p)
        invariant
            j <= to <= v.len(),
            p@.len() > 0,
            trim_end_matches_seq(v@.take(to as int), p@) == trim_end_matches_seq(
                v@.take(j as int),
                p@,
            ),
        decreases j,
    {
        proof {
            let t = v@.take(j as int);
            assert(t.subrange(j - p@.len(), j as int) == v@.subrange(j - p@.len(), j as int));
            assert(t.take(j - p@.len()) == v@.take(j - p@.len()));
        }
        j = j - p.len();
    }
    proof {
        let t = v@.take(j as int);
        if j >= p@.len() {
            assert(t.subrange(j - p@.len(), j as int) == v@.subrange(j - p@.len(), j as int));
        }
    }
    j
}

/// `str::trim_end_matches` for a non-empty string pattern.
pub fn trim_end_matches(s: &str, p: &str) -> (r: String)
    requires
        p@.len() > 0,
    ensures
        r@ == trim_end_matches_seq(s@, p@),
{
    let v = chars_of(s);
    let w = chars_of(p);
    let j = trim_end_matches_len(&v, v.len(), &w);
    assert(v@.take(v.len() as int) == v@);
    slice_string(&v, 0, j)
}

/// Index of the first character of `v` that is not `c`.
pub fn trim_start_char_len(v: &Vec<char>, c: char) -> (i: usize)
    ensures
        i <= v.len(),
        trim_start_char_seq(v@, c) == v@.skip(i as int),
{
    let mut i: usize = 0;
    assert(v@.skip(0) == v@);
    while i < v.len() && v[i] == c
        invariant
            i <= v.len(),
            trim_start_char_seq(v@, c) == trim_start_char_seq(v@.skip(i as int), c),
        decreases v.len() - i,
    {
        assert(v@.skip(i as int).drop_first() == v@.skip(i + 1));
        i = i + 1;
    }
    if i < v.len() {
        assert(v@.skip(i as int)[0] == v@[i as int]);
    }
    i
}

/// `str::trim_start_matches` for a single character.
pub fn trim_start_char(s: &str, c: char) -> (r: String)
    ensures
        r@ == trim_start_char_seq(s@, c),
{
    let v = chars_of(s);
    let i = trim_start_char_len(&v, c);
    slice_string(&v, i, v.len())
}

/// The views of a sequence of strings.
pub open spec fn views(v: Seq<String>) -> Seq<Seq<char>> {
    v.map_values(|x: String| x@)
}

/// Whether `s` is one of the strings of `v`.
pub fn contains_str(v: &Vec<String>, s: &str) -> (b: bool)
    ensures
        b == views(v@).contains(s@),
{
    let mut i: usize = 0;
    while i < v.len()
        invariant
            i <= v.len(),
            forall|k: int| 0 <= k < i ==> v@[k]@ != s@,
        decreases v.len() - i,
    {
        if str_eq(v[i].as_str(), s) {
            assert(views(v@)[i as int] == s@);
            return true;
        }
        i = i + 1;
    }
    proof {
        if views(v@).contains(s@) {
            let k = choose|k: int| 0 <= k < views(v@).len() && views(v@)[k] == s@;
            assert(v@[k]@ == s@);
        }
    }
    false
}

/// The strings of `v` joined with `sep` between them (`[T]::join`).
pub open spec fn join_seq(v: Seq<Seq<char>>, sep: Seq<char>) -> Seq<char>
    decreases v.len(),
{
    if v.len() == 0 {
        seq![]
    } else if v.len() == 1 {
        v[0]
    } else {
        join_seq(v.drop_last(), sep) + sep + v.last()
    }
}

/// Joins the strings of `v` with `sep` between them.
pub fn join(v: &Vec<String>, sep: &str) -> (r: String)
    ensures
        r@ == join_seq(views(v@), sep@),
{
    let mut r = String::new();
    let mut i: usize = 0;
    while i < v.len()
        invariant
            i <= v.len(),
            r@ == join_seq(views(v@).take(i as int), sep@),
        decreases v.len() - i,
    {
        assert(views(v@).take(i + 1).drop_last() == views(v@).take(i as int));
        if i > 0 {
            r.append(sep);
        } else {
            assert(views(v@).take(1) == seq![v@[0]@]);
        }
        r.append(v[i].as_str());
        i = i + 1;
    }
    assert(views(v@).take(v.len() as int) == views(v@));
    r
}

/// Number of leading characters of `s` that are not white space.
pub open spec fn word_len(s: Seq<char>) -> nat
    decreases s.len(),
{
    if s.len() > 0 && !is_ws(s[0]) {
        1 + word_len(s.drop_first())
    } else {
        0
    }
}

pub proof fn lemma_word_len(s: Seq<char>)
    ensures
        word_len(s) <= s.len(),
        forall|k: int| 0 <= k < word_len(s) ==> !is_ws(#[trigger] s[k]),
        word_len(s) < s.len() ==> is_ws(s[word_len(s) as int]),
    decreases s.len(),
{
    if s.len() > 0 && !is_ws(s[0]) {
        lemma_word_len(s.drop_first());
        assert forall|k: int| 0 <= k < word_len(s) implies !is_ws(#[trigger] s[k]) by {
            if k > 0 {
                assert(s[k] == s.drop_first()[k - 1]);
            }
        }
        if word_len(s) < s.len() {
            assert(s[word_len(s) as int] == s.drop_first()[word_len(s.drop_first()) as int]);
        }
    }
}

/// `str::split_whitespace`: the maximal runs of non-white-space characters, in order.
pub open spec fn split_ws_seq(s: Seq<char>) -> Seq<Seq<char>>
    decreases s.len(),
{
    if s.len() == 0 {
        seq![]
    } else if is_ws(s[0]) {
        split_ws_seq(s.drop_first())
    } else {
        let n = word_len(s);
        proof {
            lemma_word_len(s);
        }
        seq![s.take(n as int)] + split_ws_seq(s.skip(n as int))
    }
}

/// Word length at index `i` of `v`, computed.
fn word_end(v: &Vec<char>, i: usize) -> (j: usize)
    requires
        i <= v.len(),
    ensures
        i <= j <= v.len(),
        j - i == word_len(v@.skip(i as int)),
{
    let mut j = i;
    proof {
        lemma_word_len(v@.skip(i as int));
    }
    while j < v.len() && !is_whitespace(v[j])
        invariant
            i <= j <= v.len(),
            word_len(v@.skip(i as int)) == (j - i) + word_len(v@.skip(j as int)),
        decreases v.len() - j,
    {
        assert(v@.skip(j as int).drop_first() == v@.skip(j + 1));
        assert(v@.skip(j as int)[0] == v@[j as int]);
        j = j + 1;
    }
    if j < v.len() {
        assert(v@.skip(j as int)[0] == v@[j as int]);
    }
    j
}

/// `str::split_whitespace`, collected.
pub fn split_whitespace(s: &str) -> (r: Vec<String>)
    ensures
        views(r@) == split_ws_seq(s@),
{
    let v = chars_of(s);
    let mut out: Vec<String> = Vec::new();
    let mut i: usize = 0;
    assert(v@.skip(0) == v@);
    while i < v.len()
        invariant
            i <= v.len(),
            split_ws_seq(v@) == views(out@) + split_ws_seq(v@.skip(i as int)),
        decreases v.len() - i,
    {
        let ghost t = v@.skip(i as int);
        assert(t[0] == v@[i as int]);
        if is_whitespace(v[i]) {
            assert(t.drop_first() == v@.skip(i + 1));
            i = i + 1;
        } else {
            let j = word_end(&v, i);
            let w = slice_string(&v, i, j);
            proof {
                assert(t.take(j - i) == v@.subrange(i as int, j as int));
                assert(t.skip(j - i) == v@.skip(j as int));
                assert(views(out@.push(w)) == views(out@).push(w@));
                assert(views(out@).push(w@) + split_ws_seq(v@.skip(j as int)) == views(out@) + (
                seq![w@] + split_ws_seq(v@.skip(j as int))));
            }
            out.push(w);
            i = j;
        }
    }
    proof {
        assert(views(out@) + seq![] == views(out@));
    }
    out
}

/// Length of the first piece of `s` when split at `c`: the characters before the first `c`.
pub open spec fn piece_len(s: Seq<char>, c: char) -> nat
    decreases s.len(),
{
    if s.len() > 0 && s[0] != c {
        1 + piece_len(s.drop_first(), c)
    } else {
        0
    }
}

pub proof fn lemma_piece_len(s: Seq<char>, c: char)
    ensures
        piece_len(s, c) <= s.len(),
        forall|k: int| 0 <= k < piece_len(s, c) ==> #[trigger] s[k] != c,
        piece_len(s, c) < s.len() ==> s[piece_len(s, c) as int] == c,
    decreases s.len(),
{
    if s.len() > 0 && s[0] != c {
        lemma_piece_len(s.drop_first(), c);
        assert forall|k: int| 0 <= k < piece_len(s, c) implies #[trigger] s[k] != c by {
            if k > 0 {
                assert(s[k] == s.drop_first()[k - 1]);
            }
        }
        if piece_len(s, c) < s.len() {
            assert(s[piece_len(s, c) as int] == s.drop_first()[piece_len(s.drop_first(), c) as int]);
        }
    }
}

/// `str::split` at a character: the pieces between the occurrences of `c`, empty ones
/// included (so there is always one more piece than occurrences).
pub open spec fn split_char_seq(s: Seq<char>, c: char) -> Seq<Seq<char>>
    decreases s.len(),
{
    let n = piece_len(s, c);
    proof {
        lemma_piece_len(s, c);
    }
    if n >= s.len() {
        seq![s]
    } else {
        seq![s.take(n as int)] + split_char_seq(s.skip(n as int + 1), c)
    }
}

proof fn lemma_piece_at(v: Seq<char>, i: int, j: int, c: char)
    requires
        0 <= i <= j <= v.len(),
        forall|k: int| i <= k < j ==> #[trigger] v[k] != c,
        j == v.len() || v[j] == c,
    ensures
        piece_len(v.skip(i), c) == j - i,
    decreases j - i,
{
    if i < j {
        assert(v.skip(i).drop_first() == v.skip(i + 1));
        lemma_piece_at(v, i + 1, j, c);
    } else if j < v.len() {
        assert(v.skip(i)[0] == v[i]);
    }
}

/// `str::split` at a character, collected.
pub fn split_char(s: &str, c: char) -> (r: Vec<String>)
    ensures
        views(r@) == split_char_seq(s@, c),
{
    let v = chars_of(s);
    let mut out: Vec<String> = Vec::new();
    let mut i: usize = 0;
    assert(v@.skip(0) == v@);
    loop
        invariant
            i <= v.len(),
            v@ == s@,
            views(out@) + split_char_seq(v@.skip(i as int), c) == split_char_seq(s@, c),
        decreases v.len() - i,
    {
        let mut j = i;
        while j < v.len() && v[j] != c
            invariant
                i <= j <= v.len(),
                forall|k: int| i <= k < j ==> #[trigger] v@[k] != c,
            decreases v.len() - j,
        {
            j = j + 1;
        }
        proof {
            lemma_piece_at(v@, i as int, j as int, c);
            assert(v@.skip(i as int).take(j - i) == v@.subrange(i as int, j as int));
        }
        let piece = slice_string(&v, i, j);
        let ghost before = views(out@);
        out.push(piece);
        assert(views(out@) == before.push(piece@));
        if j >= v.len() {
            assert(split_char_seq(v@.skip(i as int), c) == seq![v@.skip(i as int)]);
            assert(v@.skip(i as int) == v@.subrange(i as int, j as int));
            assert(before.push(piece@) == before + seq![piece@]);
            return out;
        }
        assert(v@.skip(i as int).skip(j - i + 1) == v@.skip(j + 1));
        assert(before.push(piece@) + split_char_seq(v@.skip(j + 1), c) == before + (seq![piece@]
            + split_char_seq(v@.skip(j + 1), c)));
        i = j + 1;
    }
}

/// Number of characters of `s` before its first line feed (or `s.len()` when there is none).
pub open spec fn line_len(s: Seq<char>) -> nat
    decreases s.len(),
{
    if s.len() > 0 && s[0] != '\n' {
        1 + line_len(s.drop_first())
    } else {
        0
    }
}

pub proof fn lemma_line_len(s: Seq<char>)
    ensures
        line_len(s) <= s.len(),
        forall|k: int| 0 <= k < line_len(s) ==> #[trigger] s[k] != '\n',
        line_len(s) < s.len() ==> s[line_len(s) as int] == '\n',
    decreases s.len(),
{
    if s.len() > 0 && s[0] != '\n' {
        lemma_line_len(s.drop_first());
        assert forall|k: int| 0 <= k < line_len(s) implies #[trigger] s[k] != '\n' by {
            if k > 0 {
                assert(s[k] == s.drop_first()[k - 1]);
            }
        }
        if line_len(s) < s.len() {
            assert(s[line_len(s) as int] == s.drop_first()[line_len(s.drop_first()) as int]);
        }
    }
}

/// A line without the carriage return that ended it.
pub open spec fn strip_cr(l: Seq<char>) -> Seq<char> {
    if l.len() > 0 && l.last() == '\r' {
        l.drop_last()
    } else {
        l
    }
}

/// `str::lines`: lines end at `\n` or `\r\n`; the last line ending is optional.
pub open spec fn lines_seq(s: Seq<char>) -> Seq<Seq<char>>
    decreases s.len(),
{
    if s.len() == 0 {
        seq![]
    } else {
        let n = line_len(s);
        proof {
            lemma_line_len(s);
        }
        if n == s.len() {
            seq![s]
        } else {
            seq![strip_cr(s.take(n as int))] + lines_seq(s.skip(n as int + 1))
        }
    }
}

/// `str::lines`, collected.
pub fn lines(s: &str) -> (r: Vec<String>)
    ensures
        views(r@) == lines_seq(s@),
{
    let v = chars_of(s);
    let mut out: Vec<String> = Vec::new();
    let mut i: usize = 0;
    assert(v@.skip(0) == v@);
    while i < v.len()
        invariant
            i <= v.len(),
            lines_seq(v@) == views(out@) + lines_seq(v@.skip(i as int)),
        decreases v.len() - i,
    {
        let ghost t = v@.skip(i as int);
        let mut j = i;
        proof {
            lemma_line_len(t);
        }
        while j < v.len() && v[j] != '\n'
            invariant
                i <= j <= v.len(),
                t == v@.skip(i as int),
                line_len(t) == (j - i) + line_len(v@.skip(j as int)),
            decreases v.len() - j,
        {
            assert(v@.skip(j as int).drop_first() == v@.skip(j + 1));
            assert(v@.skip(j as int)[0] == v@[j as int]);
            j = j + 1;
        }
        if j < v.len() {
            assert(v@.skip(j as int)[0] == v@[j as int]);
        }
        if j == v.len() {
            let w = slice_string(&v, i, j);
            proof {
                assert(t == v@.subrange(i as int, j as int));
                assert(v@.skip(j as int).len() == 0);
                assert(views(out@.push(w)) == views(out@).push(w@));
                assert(views(out@).push(w@) == views(out@) + seq![w@]);
            }
            out.push(w);
            i = j;
        } else {
            let end = if j > i && v[j - 1] == '\r' {
                j - 1
            } else {
                j
            };
            let w = slice_string(&v, i, end);
            proof {
                let l = t.take(j - i);
                assert(l == v@.subrange(i as int, j as int));
                if j > i {
                    assert(l.last() == v@[j - 1]);
                }
                if end < j {
                    assert(l.drop_last() == v@.subrange(i as int, end as int));
                }
                assert(strip_cr(l) == w@);
                assert(t.skip(j - i + 1) == v@.skip(j + 1));
                assert(views(out@.push(w)) == views(out@).push(w@));
                assert(views(out@).push(w@) + lines_seq(v@.skip(j + 1)) == views(out@) + (seq![
                    w@,
                ] + lines_seq(v@.skip(j + 1))));
            }
            out.push(w);
            i = j + 1;
        }
    }
    proof {
        assert(views(out@) + seq![] == views(out@));
    }
    out
}

/// Decimal digits of `n`, most significant first, without leading zeros.
pub open spec fn dec_seq(n: nat) -> Seq<char>
    decreases n,
{
    if n < 10 {
        seq![digit_char(n)]
    } else {
        dec_seq(n / 10).push(digit_char(n % 10))
    }
}

/// Decimal rendering of an integer, with a leading `-` when it is negative.
pub open spec fn dec_int_seq(x: int) -> Seq<char> {
    if x < 0 {
        seq!['-'] + dec_seq((-x) as nat)
    } else {
        dec_seq(x as nat)
    }
}

/// The ASCII digit for `d < 10`.
pub fn digit(d: u128) -> (c: char)
    requires
        d < 10,
    ensures
        c == digit_char(d as nat),
{
    ((48 + d) as u8) as char
}

/// Appends the decimal digits of `n`.
pub fn push_decimal(out: &mut String, n: u128)
    ensures
        final(out)@ == old(out)@ + dec_seq(n as nat),
    decreases n,
{
    if n >= 10 {
        push_decimal(out, n / 10);
    }
    push_char(out, digit(n % 10));
    proof {
        if n >= 10 {
            assert(old(out)@ + dec_seq(n as nat) == old(out)@ + dec_seq((n / 10) as nat) + seq![
                digit_char((n % 10) as nat),
            ]);
        } else {
            assert(dec_seq(n as nat) == seq![digit_char(n as nat)]);
        }
    }
}

/// `n` in decimal (the `Display` of an unsigned integer).
pub fn decimal(n: u64) -> (s: String)
    ensures
        s@ == dec_seq(n as nat),
{
    let mut s = String::new();
    push_decimal(&mut s, n as u128);
    s
}

/// `x` in decimal (the `Display` of a signed integer).
pub fn decimal_signed(x: i64) -> (s: String)
    ensures
        s@ == dec_int_seq(x as int),
{
    let mut s = String::new();
    if x < 0 {
        push_char(&mut s, '-');
        let m: i128 = -(x as i128);
        push_decimal(&mut s, m as u128);
    } else {
        push_decimal(&mut s, x as u128);
    }
    s
}

/// Value of a digit character in the given radix (`char::to_digit`).
pub open spec fn digit_value(c: char, radix: nat) -> Option<nat> {
    let u = c as u32;
    let v: int = if 48 <= u <= 57 {
        u - 48
    } else if 97 <= u <= 122 {
        u - 97 + 10
    } else if 65 <= u <= 90 {
        u - 65 + 10
    } else {
        radix as int
    };
    if v < radix {
        Some(v as nat)
    } else {
        None
    }
}

pub open spec fn all_digits(s: Seq<char>, radix: nat) -> bool {
    forall|i: int| 0 <= i < s.len() ==> (#[trigger] digit_value(s[i], radix)) is Some
}

/// The number written by the digits of `s` (most significant first).
pub open spec fn digits_value(s: Seq<char>, radix: nat) -> nat
    decreases s.len(),
{
    if s.len() == 0 {
        0
    } else {
        digits_value(s.drop_last(), radix) * radix + digit_value(s.last(), radix).unwrap()
    }
}

/// The digits of an unsigned number: `s` without a leading `+`.
pub open spec fn unsigned_body(s: Seq<char>) -> Seq<char> {
    if s.len() > 0 && s[0] == '+' {
        s.drop_first()
    } else {
        s
    }
}

/// What `from_str_radix` gives for an unsigned integer type whose largest value is `max`:
/// an optional `+`, then one or more digits, and no value above `max`.
pub open spec fn parse_unsigned_seq(s: Seq<char>, radix: nat, max: nat) -> Option<nat> {
    let body = unsigned_body(s);
    if body.len() == 0 || !all_digits(body, radix) || digits_value(body, radix) > max {
        None
    } else {
        Some(digits_value(body, radix))
    }
}

proof fn lemma_parse_bad_digit(s: Seq<char>, radix: nat, max: nat, k: int)
    requires
        0 <= k < unsigned_body(s).len(),
        digit_value(unsigned_body(s)[k], radix) is None,
    ensures
        parse_unsigned_seq(s, radix, max) is None,
{
    assert(!all_digits(unsigned_body(s), radix));
}

/// Value of `c` as a digit in `radix`.
pub fn digit_of(c: char, radix: u32) -> (r: Option<u32>)
    requires
        2 <= radix <= 36,
    ensures
        r matches Some(d) ==> digit_value(c, radix as nat) == Some(d as nat),
        r is None ==> digit_value(c, radix as nat) is None,
{
    let u = c as u32;
    let v: u32 = if 48 <= u && u <= 57 {
        u - 48
    } else if 97 <= u && u <= 122 {
        u - 97 + 10
    } else if 65 <= u && u <= 90 {
        u - 65 + 10
    } else {
        radix
    };
    if v < radix {
        Some(v)
    } else {
        None
    }
}

proof fn lemma_value_step(v: nat, radix: nat, d: nat, max: nat)
    requires
        v > max,
        radix >= 1,
    ensures
        v * radix + d > max,
{
    assert(v * radix >= v) by (nonlinear_arith)
        requires
            radix >= 1,
    ;
}

/// Parses `v[from..]` as an unsigned integer in `radix`, refusing values above `max`.
pub fn parse_unsigned(v: &Vec<char>, radix: u32, max: u64) -> (r: Option<u64>)
    requires
        2 <= radix <= 36,
    ensures
        r matches Some(n) ==> parse_unsigned_seq(v@, radix as nat, max as nat) == Some(n as nat),
        r is None ==> parse_unsigned_seq(v@, radix as nat, max as nat) is None,
{
    let start: usize = if v.len() > 0 && v[0] == '+' {
        1
    } else {
        0
    };
    let ghost body = unsigned_body(v@);
    assert(body == v@.skip(start as int));
    if start == v.len() {
        return None;
    }
    let mut acc: u64 = 0;
    let mut over = false;
    let mut i = start;
    assert(v@.subrange(start as int, start as int).len() == 0);
    while i < v.len()
        invariant
            start <= i <= v.len(),
            2 <= radix <= 36,
            body == v@.skip(start as int),
            body == unsigned_body(v@),
            all_digits(v@.subrange(start as int, i as int), radix as nat),
            over ==> digits_value(v@.subrange(start as int, i as int), radix as nat) > max,
            !over ==> acc == digits_value(v@.subrange(start as int, i as int), radix as nat),
            acc <= max,
        decreases v.len() - i,
    {
        let ghost pre = v@.subrange(start as int, i as int);
        let ghost next = v@.subrange(start as int, i + 1);
        assert(next.drop_last() == pre);
        assert(next.last() == v@[i as int]);
        match digit_of(v[i], radix) {
            None => {
                proof {
                    assert(body.len() == v@.len() - start);
                    assert(body[i - start] == v@[i as int]);
                    lemma_parse_bad_digit(v@, radix as nat, max as nat, i - start);
                }
                return None;
            },
            Some(d) => {
                assert forall|k: int| 0 <= k < next.len() implies (#[trigger] digit_value(
                    next[k],
                    radix as nat,
                )) is Some by {
                    if k < pre.len() {
                        assert(next[k] == pre[k]);
                    }
                }
                if over {
                    proof {
                        lemma_value_step(digits_value(pre, radix as nat), radix as nat, d as nat, max as nat);
                    }
                } else {
                    assert(d < radix);
                    assert((acc as int) * (radix as int) <= 0xffff_ffff_ffff_ffff * 36) by (nonlinear_arith)
                        requires
                            acc <= 0xffff_ffff_ffff_ffffu64,
                            radix <= 36,
                    ;
                    let p: u128 = (acc as u128) * (radix as u128);
                    let t: u128 = p + (d as u128);
                    if t > max as u128 {
                        over = true;
                    } else {
                        acc = t as u64;
                    }
                }
            },
        }
        i = i + 1;
    }
    assert(v@.subrange(start as int, v.len() as int) == body);
    if over {
        None
    } else {
        Some(acc)
    }
}

/// `s` padded on the right with spaces up to `width` characters (`{:<width}`).
pub open spec fn pad_seq(s: Seq<char>, width: nat) -> Seq<char> {
    if s.len() >= width {
        s
    } else {
        s + Seq::new((width - s.len()) as nat, |i: int| ' ')
    }
}

/// Appends `s` padded with spaces up to `width` characters.
pub fn push_padded(out: &mut String, s: &str, width: usize)
    ensures
        final(out)@ == old(out)@ + pad_seq(s@, width as nat),
{
    let n = s.unicode_len();
    out.append(s);
    if n < width {
        let mut k = n;
        let ghost base = old(out)@ + s@;
        while k < width
            invariant
                n <= k <= width,
                n == s@.len(),
                out@ == base + Seq::new((k - n) as nat, |i: int| ' '),
            decreases width - k,
        {
            push_char(out, ' ');
            assert(Seq::new((k + 1 - n) as nat, |i: int| ' ') == Seq::new(
                (k - n) as nat,
                |i: int| ' ',
            ).push(' '));
            k = k + 1;
        }
        assert(old(out)@ + pad_seq(s@, width as nat) == base + Seq::new(
            (width - n) as nat,
            |i: int| ' ',
        ));
    } else {
        assert(pad_seq(s@, width as nat) == s@);
    }
}

/// `s` repeated `n` times (`str::repeat`).
pub open spec fn repeat_seq(s: Seq<char>, n: nat) -> Seq<char>
    decreases n,
{
    if n == 0 {
        seq![]
    } else {
        repeat_seq(s, (n - 1) as nat) + s
    }
}

/// `s` repeated `n` times is `n` times as long.
pub proof fn lemma_repeat_len(s: Seq<char>, n: nat)
    ensures
        repeat_seq(s, n).len() == n * s.len(),
    decreases n,
{
    if n > 0 {
        lemma_repeat_len(s, (n - 1) as nat);
        let m = (n - 1) as nat;
        assert(repeat_seq(s, n) == repeat_seq(s, m) + s);
        assert(m * s.len() + s.len() == n * s.len()) by (nonlinear_arith)
            requires
                m + 1 == n,
        ;
    } else {
        assert(n * s.len() == 0) by (nonlinear_arith)
            requires
                n == 0,
        ;
    }
}

/// Appends `s` repeated `n` times.
pub fn push_repeated(out: &mut String, s: &str, n: usize)
    ensures
        final(out)@ == old(out)@ + repeat_seq(s@, n as nat),
{
    let ghost base = old(out)@;
    let mut k: usize = 0;
    assert(base + repeat_seq(s@, 0) == base);
    while k < n
        invariant
            k <= n,
            out@ == base + repeat_seq(s@, k as nat),
        decreases n - k,
    {
        out.append(s);
        assert(base + repeat_seq(s@, (k + 1) as nat) == base + repeat_seq(s@, k as nat) + s@);
        k = k + 1;
    }
}

/// What `str::to_lowercase` gives for a string: its Unicode lowercase mapping.
pub uninterp spec fn lowercase(s: Seq<char>) -> Seq<char>;

/// `c` with `A`-`Z` mapped to `a`-`z`.
pub open spec fn ascii_lower_char(c: char) -> char {
    if 'A' <= c && c <= 'Z' {
        ((c as u32) + 32) as char
    } else {
        c
    }
}

/// Every character of `s` is ASCII.
pub open spec fn ascii_text(s: Seq<char>) -> bool {
    forall|i: int| 0 <= i < s.len() ==> (#[trigger] s[i] as u32) < 128
}

/// The lowercase form of a string: for ASCII text, `A`-`Z` mapped to `a`-`z`.
pub open spec fn lower_text(s: Seq<char>) -> Seq<char> {
    if ascii_text(s) {
        s.map_values(|c: char| ascii_lower_char(c))
    } else {
        lowercase(s)
    }
}

/// `str::to_lowercase`, taken on trust: the result is the Unicode lowercase mapping of
/// the string, which `lowercase` names without stating it; on ASCII text that mapping
/// only turns `A`-`Z` into `a`-`z`.
#[verifier::external_body]
pub(crate) fn to_lowercase(s: &str) -> (r: String)
    ensures
        r@ == lowercase(s@),
        ascii_text(s@) ==> r@ == s@.map_values(|c: char| ascii_lower_char(c)),
{
    s.to_lowercase()
}

/// What the `Debug` format of a string slice gives: the string in double quotes with
/// quotes, backslashes and control characters escaped.
pub uninterp spec fn debug_quoted(s: Seq<char>) -> Seq<char>;

/// Printable ASCII other than `"` and the backslash: the characters that the `Debug` form of a
/// string leaves as they are.
pub open spec fn plain_printable(s: Seq<char>) -> bool {
    forall|i: int|
        0 <= i < s.len() ==> 0x20 <= (#[trigger] s[i] as u32) <= 0x7e && s[i] != '"' && s[i] != '\\'
}

/// The `Debug` form of a string: for plain printable ASCII, the string in double quotes.
pub open spec fn debug_text(s: Seq<char>) -> Seq<char> {
    if plain_printable(s) {
        seq!['"'] + s + seq!['"']
    } else {
        debug_quoted(s)
    }
}

/// `format!("{:?}", s)` for a string slice, taken on trust: the result is the `Debug`
/// form that `debug_quoted` names; a string of printable ASCII without `"` or a
/// backslash comes out only wrapped in double quotes, as escaping leaves those characters alone.
#[verifier::external_body]
pub(crate) fn debug_str(s: &str) -> (r: String)
    ensures
        r@ == debug_quoted(s@),
        plain_printable(s@) ==> r@ == seq!['"'] + s@ + seq!['"'],
{
    format!("{:?}", s)
}

/// `s` padded on the left with spaces up to `width` characters (`{:>width}`).
pub open spec fn pad_left_seq(s: Seq<char>, width: nat) -> Seq<char> {
    if s.len() >= width {
        s
    } else {
        Seq::new((width - s.len()) as nat, |i: int| ' ') + s
    }
}

/// Appends `s` padded on the left with spaces up to `width` characters.
pub fn push_padded_left(out: &mut String, s: &str, width: usize)
    ensures
        final(out)@ == old(out)@ + pad_left_seq(s@, width as nat),
{
    let n = s.unicode_len();
    if n < width {
        let mut k = n;
        let ghost base = old(out)@;
        while k < width
            invariant
                n <= k <= width,
                n == s@.len(),
                out@ == base + Seq::new((k - n) as nat, |i: int| ' '),
            decreases width - k,
        {
            push_char(out, ' ');
            assert(Seq::new((k + 1 - n) as nat, |i: int| ' ') == Seq::new(
                (k - n) as nat,
                |i: int| ' ',
            ).push(' '));
            k = k + 1;
        }
        out.append(s);
        assert(old(out)@ + pad_left_seq(s@, width as nat) == base + Seq::new(
            (width - n) as nat,
            |i: int| ' ',
        ) + s@);
    } else {
        out.append(s);
        assert(pad_left_seq(s@, width as nat) == s@);
    }
}

} // verus!
