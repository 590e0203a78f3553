//! Character-level string helpers shared by the parsers of this crate.
use vstd::prelude::*;

verus! {

/// Whether `c` carries the Unicode `White_Space` property (PropList.txt), as
/// `char::is_whitespace` decides: tab through carriage return (U+0009 to U+000D), space,
/// next line (U+0085), no-break space (U+00A0), the Ogham space mark (U+1680), the spaces
/// U+2000 to U+200A, the line and paragraph separators (U+2028, U+2029), the narrow
/// no-break space (U+202F), the medium mathematical space (U+205F) and the ideographic
/// space (U+3000).
pub open spec fn unicode_whitespace(c: char) -> bool {
    let u = c as u32;
    ||| 9 <= u <= 13
    ||| u == 0x20
    ||| u == 0x85
    ||| u == 0xA0
    ||| u == 0x1680
    ||| 0x2000 <= u <= 0x200A
    ||| u == 0x2028
    ||| u == 0x2029
    ||| u == 0x202F
    ||| u == 0x205F
    ||| u == 0x3000
}

/// The string that `str::to_lowercase` returns for the characters `s`.
pub uninterp spec fn unicode_lowercase(s: Seq<char>) -> Seq<char>;

/// Whether `c` is one of the ASCII characters with the `White_Space` property: space, and
/// tab through carriage return (U+0009 to U+000D).
pub open spec fn ascii_whitespace(c: char) -> bool {
    c == ' ' || 9 <= (c as u32) <= 13
}

/// Whether `c` is whitespace in Unicode's sense, as `char::is_whitespace` decides.
pub fn is_whitespace(c: char) -> (b: bool)
    ensures
        b == unicode_whitespace(c),
        (c as u32) < 128 ==> b == ascii_whitespace(c),
{
    let u = c as u32;
    (9 <= u && u <= 13) || u == 0x20 || u == 0x85 || u == 0xA0 || u == 0x1680 || (0x2000 <= u
        && u <= 0x200A) || u == 0x2028 || u == 0x2029 || u == 0x202F || u == 0x205F || u == 0x3000
}

/// Whether every character of `s` is ASCII.
pub open spec fn is_ascii_chars(s: Seq<char>) -> bool {
    forall|i: int| 0 <= i < s.len() ==> (#[trigger] s[i] as u32) < 128
}

/// The ASCII lower case of `c`: `A`..`Z` become `a`..`z`, every other character stays.
pub open spec fn ascii_lower_char(c: char) -> char {
    if 65 <= (c as u32) <= 90 {
        ((c as u32) + 32) as char
    } else {
        c
    }
}

/// The ASCII lower case of each character of `s`.
pub open spec fn ascii_lower(s: Seq<char>) -> Seq<char> {
    s.map_values(|c: char| ascii_lower_char(c))
}

/// The ASCII upper case of `c`: `a`..`z` become `A`..`Z`, every other character stays.
pub open spec fn ascii_upper_char(c: char) -> char {
    if 97 <= (c as u32) <= 122 {
        ((c as u32) - 32) as char
    } else {
        c
    }
}

/// The ASCII upper case of each character of `s`, as `str::to_ascii_uppercase` gives it.
pub open spec fn ascii_upper(s: Seq<char>) -> Seq<char> {
    s.map_values(|c: char| ascii_upper_char(c))
}

/// Upper-casing keeps ASCII text ASCII, and lower-casing after upper-casing is lower-casing.
pub proof fn lemma_ascii_upper_lower(s: Seq<char>)
    ensures
        is_ascii_chars(s) ==> is_ascii_chars(ascii_upper(s)),
        ascii_lower(ascii_upper(s)) == ascii_lower(s),
{
    assert(ascii_lower(ascii_upper(s)) =~= ascii_lower(s));
    if is_ascii_chars(s) {
        assert forall|i: int| 0 <= i < ascii_upper(s).len() implies (
        #[trigger] ascii_upper(s)[i] as u32) < 128 by {
            assert((s[i] as u32) < 128);
        }
    }
}

/// Calls `str::to_lowercase`; its result is named by `unicode_lowercase`. On ASCII text,
/// Unicode lower-casing maps exactly `A`..`Z` to `a`..`z` and leaves the rest, as
/// `to_ascii_lowercase` does.
#[verifier::external_body]
pub(crate) fn to_lowercase(s: &str) -> (r: String)
    ensures
        r@ == unicode_lowercase(s@),
        is_ascii_chars(s@) ==> r@ == ascii_lower(s@),
{
    s.to_lowercase()
}

/// Calls `String::push`, which appends one character.
#[verifier::external_body]
pub(crate) fn push_char(s: &mut String, c: char)
    ensures
        final(s)@ == old(s)@.push(c),
{
    s.push(c)
}

/// The characters of `s`, in order.
pub fn chars_of(s: &str) -> (v: Vec<char>)
    ensures
        v@ == s@,
{
    let mut v: Vec<char> = Vec::new();
    for c in it: s.chars()
        invariant
            v@ == it.seq().take(it.index() as int),
    {
        v.push(c);
    }
    v
}

} // verus!

verus! {

/// `s` without its leading whitespace.
pub open spec fn trim_start_seq(s: Seq<char>) -> Seq<char>
    decreases s.len(),
{
    if s.len() > 0 && unicode_whitespace(s[0]) {
        trim_start_seq(s.drop_first())
    } else {
        s
    }
}

/// `s` without its trailing whitespace.
pub open spec fn trim_end_seq(s: Seq<char>) -> Seq<char>
    decreases s.len(),
{
    if s.len() > 0 && unicode_whitespace(s.last()) {
        trim_end_seq(s.drop_last())
    } else {
        s
    }
}

/// `s` without leading and trailing whitespace, as `str::trim` gives it.
pub open spec fn trim_seq(s: Seq<char>) -> Seq<char> {
    trim_end_seq(trim_start_seq(s))
}

/// `s` without its leading ASCII whitespace.
pub open spec fn ascii_trim_start(s: Seq<char>) -> Seq<char>
    decreases s.len(),
{
    if s.len() > 0 && ascii_whitespace(s[0]) {
        ascii_trim_start(s.drop_first())
    } else {
        s
    }
}

/// `s` without its trailing ASCII whitespace.
pub open spec fn ascii_trim_end(s: Seq<char>) -> Seq<char>
    decreases s.len(),
{
    if s.len() > 0 && ascii_whitespace(s.last()) {
        ascii_trim_end(s.drop_last())
    } else {
        s
    }
}

/// `s` without leading and trailing ASCII whitespace: what `str::trim` gives for ASCII text.
pub open spec fn ascii_trim(s: Seq<char>) -> Seq<char> {
    ascii_trim_end(ascii_trim_start(s))
}

/// The pieces of `s` between occurrences of `sep`, as `str::split` yields them:
/// there is always at least one piece, and a separator at either end yields an empty piece.
pub open spec fn split_seq(s: Seq<char>, sep: char) -> Seq<Seq<char>>
    decreases s.len(),
{
    if s.len() == 0 {
        seq![Seq::<char>::empty()]
    } else {
        let rest = split_seq(s.drop_last(), sep);
        if s.last() == sep {
            rest.push(Seq::<char>::empty())
        } else {
            rest.update(rest.len() - 1, rest.last().push(s.last()))
        }
    }
}

/// The views of a vector of character vectors.
pub open spec fn views_of(v: Seq<Vec<char>>) -> Seq<Seq<char>> {
    v.map_values(|p: Vec<char>| p@)
}

pub proof fn lemma_split_nonempty(s: Seq<char>, sep: char)
    ensures
        split_seq(s, sep).len() >= 1,
    decreases s.len(),
{
    if s.len() > 0 {
        lemma_split_nonempty(s.drop_last(), sep);
    }
}

proof fn lemma_trim_start_step(s: Seq<char>, i: int)
    requires
        0 <= i < s.len(),
        unicode_whitespace(s[i]),
    ensures
        trim_start_seq(s.subrange(i, s.len() as int)) == trim_start_seq(
            s.subrange(i + 1, s.len() as int),
        ),
{
    assert(s.subrange(i, s.len() as int).drop_first() =~= s.subrange(i + 1, s.len() as int));
}

proof fn lemma_trim_end_step(s: Seq<char>, i: int, j: int)
    requires
        0 <= i < j <= s.len(),
        unicode_whitespace(s[j - 1]),
    ensures
        trim_end_seq(s.subrange(i, j)) == trim_end_seq(s.subrange(i, j - 1)),
{
    assert(s.subrange(i, j).drop_last() =~= s.subrange(i, j - 1));
}

/// The ASCII lower case of ASCII text is ASCII.
pub proof fn lemma_ascii_lower_ascii(s: Seq<char>)
    requires
        is_ascii_chars(s),
    ensures
        is_ascii_chars(ascii_lower(s)),
        ascii_lower(s).len() == s.len(),
{
    assert forall|i: int| 0 <= i < ascii_lower(s).len() implies (#[trigger] ascii_lower(s)[i] as u32)
        < 128 by {
        assert((s[i] as u32) < 128);
    }
}

/// Trimming ASCII text leaves ASCII text.
pub proof fn lemma_ascii_trim_ascii(s: Seq<char>)
    requires
        is_ascii_chars(s),
    ensures
        is_ascii_chars(ascii_trim_start(s)),
        is_ascii_chars(ascii_trim_end(s)),
        is_ascii_chars(ascii_trim(s)),
    decreases s.len(),
{
    if s.len() > 0 {
        assert(is_ascii_chars(s.drop_first())) by {
            assert forall|i: int| 0 <= i < s.drop_first().len() implies (
            #[trigger] s.drop_first()[i] as u32) < 128 by {
                assert((s[i + 1] as u32) < 128);
            }
        }
        assert(is_ascii_chars(s.drop_last())) by {
            assert forall|i: int| 0 <= i < s.drop_last().len() implies (
            #[trigger] s.drop_last()[i] as u32) < 128 by {
                assert((s[i] as u32) < 128);
            }
        }
        lemma_ascii_trim_ascii(s.drop_first());
        lemma_ascii_trim_ascii(s.drop_last());
    }
    if is_ascii_chars(ascii_trim_start(s)) {
        lemma_ascii_trim_end_ascii(ascii_trim_start(s));
    }
}

proof fn lemma_ascii_trim_end_ascii(s: Seq<char>)
    requires
        is_ascii_chars(s),
    ensures
        is_ascii_chars(ascii_trim_end(s)),
    decreases s.len(),
{
    if s.len() > 0 {
        assert(is_ascii_chars(s.drop_last())) by {
            assert forall|i: int| 0 <= i < s.drop_last().len() implies (
            #[trigger] s.drop_last()[i] as u32) < 128 by {
                assert((s[i] as u32) < 128);
            }
        }
        lemma_ascii_trim_end_ascii(s.drop_last());
    }
}

/// The pieces that ASCII text is cut into are ASCII.
pub proof fn lemma_split_ascii(s: Seq<char>, sep: char)
    requires
        is_ascii_chars(s),
    ensures
        forall|i: int| 0 <= i < split_seq(s, sep).len() ==> is_ascii_chars(#[trigger] split_seq(s, sep)[i]),
    decreases s.len(),
{
    if s.len() > 0 {
        let t = s.drop_last();
        assert(is_ascii_chars(t)) by {
            assert forall|i: int| 0 <= i < t.len() implies (#[trigger] t[i] as u32) < 128 by {
                assert((s[i] as u32) < 128);
            }
        }
        lemma_split_ascii(t, sep);
        lemma_split_nonempty(t, sep);
        let rest = split_seq(t, sep);
        if s.last() != sep {
            let last = rest.last().push(s.last());
            assert((s[s.len() - 1] as u32) < 128);
            assert(is_ascii_chars(rest[rest.len() - 1]));
            assert(is_ascii_chars(last)) by {
                assert forall|i: int| 0 <= i < last.len() implies (#[trigger] last[i] as u32) < 128 by {
                    if i < last.len() - 1 {
                        assert(last[i] == rest[rest.len() - 1][i]);
                    }
                }
            }
        }
    }
}

/// ASCII lower-casing works character by character, so it distributes over concatenation.
pub proof fn lemma_ascii_lower_concat(a: Seq<char>, b: Seq<char>)
    ensures
        ascii_lower(a + b) == ascii_lower(a) + ascii_lower(b),
{
    assert(ascii_lower(a + b) =~= ascii_lower(a) + ascii_lower(b));
}

/// Lower-casing lower-cased text changes nothing.
pub proof fn lemma_ascii_lower_idempotent(s: Seq<char>)
    ensures
        ascii_lower(ascii_lower(s)) == ascii_lower(s),
{
    assert(ascii_lower(ascii_lower(s)) =~= ascii_lower(s));
}

/// Lower-casing turns no character into whitespace, or into a `sep` that is no letter,
/// unless it was one; and it keeps ASCII characters ASCII.
pub proof fn lemma_ascii_lower_char(c: char, sep: char)
    requires
        !(65 <= (sep as u32) <= 90),
        !(97 <= (sep as u32) <= 122),
    ensures
        ascii_whitespace(ascii_lower_char(c)) == ascii_whitespace(c),
        (ascii_lower_char(c) == sep) == (c == sep),
        (c as u32) < 128 ==> (ascii_lower_char(c) as u32) < 128,
{
}

/// Trimming and lower-casing ASCII text can be done in either order.
pub proof fn lemma_ascii_trim_lower(s: Seq<char>)
    ensures
        ascii_trim(ascii_lower(s)) == ascii_lower(ascii_trim(s)),
{
    lemma_ascii_trim_start_lower(s);
    lemma_ascii_trim_end_lower(ascii_trim_start(s));
}

proof fn lemma_ascii_trim_start_lower(s: Seq<char>)
    ensures
        ascii_trim_start(ascii_lower(s)) == ascii_lower(ascii_trim_start(s)),
    decreases s.len(),
{
    if s.len() > 0 {
        lemma_ascii_lower_char(s[0], '+');
        assert(ascii_lower(s)[0] == ascii_lower_char(s[0]));
        assert(ascii_lower(s).drop_first() =~= ascii_lower(s.drop_first()));
        lemma_ascii_trim_start_lower(s.drop_first());
    }
}

proof fn lemma_ascii_trim_end_lower(s: Seq<char>)
    ensures
        ascii_trim_end(ascii_lower(s)) == ascii_lower(ascii_trim_end(s)),
    decreases s.len(),
{
    if s.len() > 0 {
        lemma_ascii_lower_char(s.last(), '+');
        assert(ascii_lower(s).last() == ascii_lower_char(s.last()));
        assert(ascii_lower(s).drop_last() =~= ascii_lower(s.drop_last()));
        lemma_ascii_trim_end_lower(s.drop_last());
    }
}

/// Cutting text that ends with the separator: the pieces of the text before it, then an
/// empty piece.
pub proof fn lemma_split_push_sep(x: Seq<char>, sep: char)
    ensures
        split_seq(x.push(sep), sep) == split_seq(x, sep).push(Seq::<char>::empty()),
{
    assert(x.push(sep).drop_last() =~= x);
}

/// Appending text without separators extends the last piece.
pub proof fn lemma_split_append(x: Seq<char>, y: Seq<char>, sep: char)
    requires
        forall|i: int| 0 <= i < y.len() ==> y[i] != sep,
    ensures
        split_seq(x + y, sep) == split_seq(x, sep).update(
            split_seq(x, sep).len() - 1,
            split_seq(x, sep).last() + y,
        ),
    decreases y.len(),
{
    lemma_split_nonempty(x, sep);
    let sx = split_seq(x, sep);
    if y.len() == 0 {
        assert(x + y =~= x);
        assert(sx.last() + y =~= sx.last());
        assert(sx.update(sx.len() - 1, sx.last() + y) =~= sx);
    } else {
        let y1 = y.drop_last();
        assert forall|i: int| 0 <= i < y1.len() implies y1[i] != sep by {
            assert(y1[i] == y[i]);
        }
        lemma_split_append(x, y1, sep);
        assert((x + y).drop_last() =~= x + y1);
        assert((x + y).last() == y[y.len() - 1]);
        let rest = split_seq(x + y1, sep);
        assert((sx.last() + y1).push(y.last()) =~= sx.last() + y);
        assert(rest.update(rest.len() - 1, rest.last().push(y.last())) =~= sx.update(
            sx.len() - 1,
            sx.last() + y,
        ));
    }
}

proof fn lemma_ascii_trim_start_step(s: Seq<char>, i: int)
    requires
        0 <= i < s.len(),
        ascii_whitespace(s[i]),
    ensures
        ascii_trim_start(s.subrange(i, s.len() as int)) == ascii_trim_start(
            s.subrange(i + 1, s.len() as int),
        ),
{
    assert(s.subrange(i, s.len() as int).drop_first() =~= s.subrange(i + 1, s.len() as int));
}

proof fn lemma_ascii_trim_end_step(s: Seq<char>, i: int, j: int)
    requires
        0 <= i < j <= s.len(),
        ascii_whitespace(s[j - 1]),
    ensures
        ascii_trim_end(s.subrange(i, j)) == ascii_trim_end(s.subrange(i, j - 1)),
{
    assert(s.subrange(i, j).drop_last() =~= s.subrange(i, j - 1));
}

/// The characters of `v` from `start` up to `end`.
pub fn copy_range(v: &Vec<char>, start: usize, end: usize) -> (r: Vec<char>)
    requires
        start <= end <= v.len(),
    ensures
        r@ == v@.subrange(start as int, end as int),
{
    let mut r: Vec<char> = Vec::new();
    let mut k = start;
    while k < end
        invariant
            start <= k <= end <= v.len(),
            r@ == v@.subrange(start as int, k as int),
        decreases end - k,
    {
        r.push(v[k]);
        k = k + 1;
    }
    r
}

/// `v` without leading and trailing whitespace.
pub fn trim_chars(v: &Vec<char>) -> (r: Vec<char>)
    ensures
        r@ == trim_seq(v@),
        is_ascii_chars(v@) ==> r@ == ascii_trim(v@),
{
    let n = v.len();
    let mut i: usize = 0;
    assert(v@.subrange(0, n as int) =~= v@);
    while i < n && is_whitespace(v[i])
        invariant
            i <= n == v.len(),
            trim_start_seq(v@) == trim_start_seq(v@.subrange(i as int, n as int)),
            is_ascii_chars(v@) ==> ascii_trim_start(v@) == ascii_trim_start(
                v@.subrange(i as int, n as int),
            ),
        decreases n - i,
    {
        proof {
            lemma_trim_start_step(v@, i as int);
            if is_ascii_chars(v@) {
                assert((v@[i as int] as u32) < 128);
                lemma_ascii_trim_start_step(v@, i as int);
            }
        }
        i = i + 1;
    }
    assert(trim_start_seq(v@) == v@.subrange(i as int, n as int));
    proof {
        if is_ascii_chars(v@) && i < n {
            assert((v@[i as int] as u32) < 128);
        }
    }
    assert(is_ascii_chars(v@) ==> ascii_trim_start(v@) == v@.subrange(i as int, n as int));
    let mut j: usize = n;
    while j > i && is_whitespace(v[j - 1])
        invariant
            i <= j <= n == v.len(),
            trim_seq(v@) == trim_end_seq(v@.subrange(i as int, j as int)),
            is_ascii_chars(v@) ==> ascii_trim(v@) == ascii_trim_end(v@.subrange(i as int, j as int)),
        decreases j - i,
    {
        proof {
            lemma_trim_end_step(v@, i as int, j as int);
            if is_ascii_chars(v@) {
                assert((v@[j - 1] as u32) < 128);
                lemma_ascii_trim_end_step(v@, i as int, j as int);
            }
        }
        j = j - 1;
    }
    proof {
        if is_ascii_chars(v@) && j > i {
            assert((v@[j - 1] as u32) < 128);
            assert(v@.subrange(i as int, j as int).last() == v@[j - 1]);
        }
    }
    copy_range(v, i, j)
}

/// `v` cut at every occurrence of `sep`.
pub fn split_chars(v: &Vec<char>, sep: char) -> (r: Vec<Vec<char>>)
    ensures
        views_of(r@) == split_seq(v@, sep),
{
    let mut parts: Vec<Vec<char>> = Vec::new();
    let mut cur: Vec<char> = Vec::new();
    let n = v.len();
    let mut i: usize = 0;
    assert(v@.take(0) =~= Seq::<char>::empty());
    assert(views_of(parts@).push(cur@) =~= split_seq(v@.take(0), sep));
    while i < n
        invariant
            i <= n == v.len(),
            views_of(parts@).push(cur@) == split_seq(v@.take(i as int), sep),
        decreases n - i,
    {
        let c = v[i];
        assert(v@.take(i + 1).drop_last() =~= v@.take(i as int));
        let ghost before = views_of(parts@);
        let ghost cur_before = cur@;
        if c == sep {
            let done = cur;
            parts.push(done);
            cur = Vec::new();
            assert(views_of(parts@) =~= before.push(cur_before));
            assert(views_of(parts@).push(cur@) =~= split_seq(v@.take(i + 1), sep));
        } else {
            cur.push(c);
            assert(views_of(parts@) =~= before);
            assert(views_of(parts@).push(cur@) =~= split_seq(v@.take(i + 1), sep));
        }
        i = i + 1;
    }
    assert(v@.take(n as int) =~= v@);
    let ghost before = views_of(parts@);
    parts.push(cur);
    assert(views_of(parts@) =~= before.push(parts@[parts@.len() - 1]@));
    parts
}

/// Whether the characters `v` spell exactly `lit`.
pub fn chars_eq_str(v: &Vec<char>, lit: &str) -> (b: bool)
    ensures
        b == (v@ == lit@),
{
    let w = chars_of(lit);
    if v.len() != w.len() {
        return false;
    }
    let mut i: usize = 0;
    while i < v.len()
        invariant
            i <= v.len() == w.len(),
            w@ == lit@,
            forall|k: int| 0 <= k < i ==> v@[k] == w@[k],
        decreases v.len() - i,
    {
        if v[i] != w[i] {
            return false;
        }
        i = i + 1;
    }
    assert(v@ =~= w@);
    true
}

/// A `String` holding the characters `v`.
pub fn string_of(v: &Vec<char>) -> (s: String)
    ensures
        s@ == v@,
{
    let mut s = String::new();
    let mut i: usize = 0;
    while i < v.len()
        invariant
            i <= v.len(),
            s@ == v@.take(i as int),
        decreases v.len() - i,
    {
        push_char(&mut s, v[i]);
        assert(v@.take(i + 1) =~= v@.take(i as int).push(v@[i as int]));
        i = i + 1;
    }
    assert(v@.take(v.len() as int) =~= v@);
    s
}

} // verus!

verus! {

/// Whether two strings hold the same characters.
pub fn str_eq(a: &str, b: &str) -> (r: bool)
    ensures
        r == (a@ == b@),
{
    let va = chars_of(a);
    chars_eq_str(&va, b)
}

/// Leading whitespace of `a + b` is that of `a`, and, where `a` is all whitespace, that
/// of `b` too.
pub proof fn lemma_trim_start_concat(a: Seq<char>, b: Seq<char>)
    ensures
        trim_start_seq(a + b) == if trim_start_seq(a).len() > 0 {
            trim_start_seq(a) + b
        } else {
            trim_start_seq(b)
        },
    decreases a.len(),
{
    if a.len() == 0 {
        assert(a + b =~= b);
    } else if unicode_whitespace(a[0]) {
        assert((a + b).drop_first() =~= a.drop_first() + b);
        lemma_trim_start_concat(a.drop_first(), b);
    } else {
        assert((a + b)[0] == a[0]);
    }
}

/// What trimming the end leaves is a prefix, and what it takes off is whitespace.
pub proof fn lemma_trim_end_split(s: Seq<char>)
    ensures
        s == trim_end_seq(s) + s.subrange(trim_end_seq(s).len() as int, s.len() as int),
        forall|j: int|
            trim_end_seq(s).len() <= j < s.len() ==> unicode_whitespace(#[trigger] s[j]),
        trim_end_seq(s).len() > 0 ==> !unicode_whitespace(trim_end_seq(s).last()),
    decreases s.len(),
{
    if s.len() > 0 && unicode_whitespace(s.last()) {
        lemma_trim_end_split(s.drop_last());
        let t = trim_end_seq(s.drop_last());
        assert forall|j: int| t.len() <= j < s.len() implies unicode_whitespace(#[trigger] s[j]) by {
            if j < s.len() - 1 {
                assert(s[j] == s.drop_last()[j]);
            }
        }
        assert(t.len() <= s.len() - 1) by {
            assert(s.drop_last().len() == t.len() + s.drop_last().subrange(
                t.len() as int,
                s.len() - 1,
            ).len());
        }
        assert forall|j: int| 0 <= j < t.len() implies t[j] == s[j] by {
            assert(s.drop_last()[j] == (t + s.drop_last().subrange(t.len() as int, s.len() - 1))[j]);
        }
        assert(s =~= t + s.subrange(t.len() as int, s.len() as int));
    } else {
        assert(s =~= s + s.subrange(s.len() as int, s.len() as int));
    }
}

/// What trimming the start leaves is a suffix that begins with a character that is not
/// whitespace.
pub proof fn lemma_trim_start_suffix(s: Seq<char>)
    ensures
        trim_start_seq(s).len() <= s.len(),
        trim_start_seq(s) == s.subrange(s.len() - trim_start_seq(s).len(), s.len() as int),
        trim_start_seq(s).len() > 0 ==> !unicode_whitespace(trim_start_seq(s)[0]),
    decreases s.len(),
{
    if s.len() > 0 && unicode_whitespace(s[0]) {
        lemma_trim_start_suffix(s.drop_first());
    } else {
        assert(s =~= s.subrange(0, s.len() as int));
    }
}

/// Trimmed text, where it is not empty, begins and ends with characters that are not
/// whitespace.
pub proof fn lemma_trim_ends(s: Seq<char>)
    ensures
        trim_seq(s).len() > 0 ==> !unicode_whitespace(trim_seq(s)[0]) && !unicode_whitespace(
            trim_seq(s).last(),
        ),
        trim_seq(s).len() == 0 ==> trim_start_seq(s).len() == 0,
{
    let a = trim_start_seq(s);
    lemma_trim_start_suffix(s);
    lemma_trim_end_split(a);
    if a.len() > 0 {
        if trim_seq(s).len() > 0 {
            assert(trim_seq(s)[0] == a[0]);
        } else {
            assert(unicode_whitespace(a[trim_end_seq(a).len() as int]));
        }
    }
}

} // verus!

