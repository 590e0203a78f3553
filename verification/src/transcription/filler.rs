//! Recognising the short Hebrew "thank you" phrases that the speech model hallucinates from
//! silence or unclear audio, so that such a transcript is treated as if nothing was said.
use vstd::prelude::*;
use crate::text::{chars_of, is_whitespace, string_of, unicode_whitespace};

verus! {

/// Whether `c` is ASCII punctuation, as `char::is_ascii_punctuation` defines it.
pub open spec fn spec_ascii_punctuation(c: char) -> bool {
    ('!' <= c <= '/') || (':' <= c <= '@') || ('[' <= c <= '`') || ('{' <= c <= '~')
}

/// Whether `c` is ASCII punctuation: `!` to `/`, `:` to `@`, `[` to `` ` ``, or `{` to `~`.
pub fn is_ascii_punctuation(c: char) -> (b: bool)
    ensures
        b == spec_ascii_punctuation(c),
{
    ('!' <= c && c <= '/') || (':' <= c && c <= '@') || ('[' <= c && c <= '`') || ('{' <= c && c
        <= '~')
}

/// Whether `c` is dropped before comparing: ASCII punctuation, and the Arabic comma and
/// semicolon, the Hebrew sof pasuq, gershayim and geresh, and the ellipsis.
pub open spec fn is_dropped(c: char) -> bool {
    spec_ascii_punctuation(c) || c == '،' || c == '؛' || c == '׃' || c == '״' || c == '׳' || c
        == '…'
}

/// `s` without its dropped characters.
pub open spec fn without_dropped(s: Seq<char>) -> Seq<char>
    decreases s.len(),
{
    if s.len() == 0 {
        s
    } else if is_dropped(s.last()) {
        without_dropped(s.drop_last())
    } else {
        without_dropped(s.drop_last()).push(s.last())
    }
}

/// The pieces of `s` between whitespace characters, empty pieces included.
pub open spec fn split_whitespace_all(s: Seq<char>) -> Seq<Seq<char>>
    decreases s.len(),
{
    if s.len() == 0 {
        seq![Seq::<char>::empty()]
    } else {
        let rest = split_whitespace_all(s.drop_last());
        if unicode_whitespace(s.last()) {
            rest.push(Seq::<char>::empty())
        } else {
            rest.update(rest.len() - 1, rest.last().push(s.last()))
        }
    }
}

/// The non-empty elements of `parts`, in order.
pub open spec fn nonempty_parts(parts: Seq<Seq<char>>) -> Seq<Seq<char>>
    decreases parts.len(),
{
    if parts.len() == 0 {
        parts
    } else if parts.last().len() > 0 {
        nonempty_parts(parts.drop_last()).push(parts.last())
    } else {
        nonempty_parts(parts.drop_last())
    }
}

/// The words of `s`, as `str::split_whitespace` yields them.
pub open spec fn words(s: Seq<char>) -> Seq<Seq<char>> {
    nonempty_parts(split_whitespace_all(s))
}

/// The words `ws` joined by single spaces.
pub open spec fn join_words(ws: Seq<Seq<char>>) -> Seq<char>
    decreases ws.len(),
{
    if ws.len() == 0 {
        Seq::<char>::empty()
    } else if ws.len() == 1 {
        ws[0]
    } else {
        join_words(ws.drop_last()) + seq![' '] + ws.last()
    }
}

/// `text` without punctuation and with its whitespace collapsed: its words joined by single
/// spaces.
pub open spec fn spec_normalize_filler(text: Seq<char>) -> Seq<char> {
    join_words(words(without_dropped(text)))
}

/// Whether `text` is only one of the filler phrases "תודה" or "תודה רבה", with any
/// punctuation and whitespace around or within it.
pub open spec fn spec_is_hebrew_filler(text: Seq<char>) -> bool {
    let n = spec_normalize_filler(text);
    n.len() > 0 && (spec_normalize_filler("תודה"@) == n || spec_normalize_filler("תודה רבה"@) == n)
}

/// Text without dropped characters stays as it is.
proof fn lemma_without_dropped_keeps(s: Seq<char>)
    requires
        forall|i: int| 0 <= i < s.len() ==> !is_dropped(#[trigger] s[i]),
    ensures
        without_dropped(s) == s,
    decreases s.len(),
{
    if s.len() > 0 {
        let t = s.drop_last();
        assert forall|i: int| 0 <= i < t.len() implies !is_dropped(#[trigger] t[i]) by {
            assert(t[i] == s[i]);
        }
        lemma_without_dropped_keeps(t);
        assert(!is_dropped(s[s.len() - 1]));
        assert(t.push(s.last()) =~= s);
    }
}

/// Text without whitespace is one piece.
proof fn lemma_split_ws_word(s: Seq<char>)
    requires
        forall|i: int| 0 <= i < s.len() ==> !unicode_whitespace(#[trigger] s[i]),
    ensures
        split_whitespace_all(s) == seq![s],
    decreases s.len(),
{
    if s.len() > 0 {
        let t = s.drop_last();
        assert forall|i: int| 0 <= i < t.len() implies !unicode_whitespace(#[trigger] t[i]) by {
            assert(t[i] == s[i]);
        }
        lemma_split_ws_word(t);
        assert(!unicode_whitespace(s[s.len() - 1]));
        assert(t.push(s.last()) =~= s);
        assert(seq![t].update(0, t.push(s.last())) =~= seq![s]);
    } else {
        assert(s =~= Seq::<char>::empty());
    }
}

/// Appending text without whitespace extends the last piece.
proof fn lemma_split_ws_append(x: Seq<char>, y: Seq<char>)
    requires
        forall|i: int| 0 <= i < y.len() ==> !unicode_whitespace(#[trigger] y[i]),
    ensures
        split_whitespace_all(x + y) == split_whitespace_all(x).update(
            split_whitespace_all(x).len() - 1,
            split_whitespace_all(x).last() + y,
        ),
    decreases y.len(),
{
    lemma_split_ws_nonempty(x);
    let sx = split_whitespace_all(x);
    if y.len() == 0 {
        assert(x + y =~= x);
        assert(sx.last() + y =~= sx.last());
        assert(sx.update(sx.len() - 1, sx.last() + y) =~= sx);
    } else {
        let y1 = y.drop_last();
        assert forall|i: int| 0 <= i < y1.len() implies !unicode_whitespace(#[trigger] y1[i]) by {
            assert(y1[i] == y[i]);
        }
        lemma_split_ws_append(x, y1);
        assert((x + y).drop_last() =~= x + y1);
        assert((x + y).last() == y[y.len() - 1]);
        let rest = split_whitespace_all(x + y1);
        assert((sx.last() + y1).push(y.last()) =~= sx.last() + y);
        assert(rest.update(rest.len() - 1, rest.last().push(y.last())) =~= sx.update(
            sx.len() - 1,
            sx.last() + y,
        ));
    }
}

/// A word (non-empty, without dropped characters or whitespace) normalises to itself, and
/// two such words with one space between normalise to themselves too.
proof fn lemma_normal_phrases(w1: Seq<char>, w2: Seq<char>)
    requires
        w1.len() > 0,
        w2.len() > 0,
        forall|i: int| 0 <= i < w1.len() ==> !is_dropped(#[trigger] w1[i]) && !unicode_whitespace(w1[i]),
        forall|i: int| 0 <= i < w2.len() ==> !is_dropped(#[trigger] w2[i]) && !unicode_whitespace(w2[i]),
    ensures
        spec_normalize_filler(w1) == w1,
        spec_normalize_filler(w1 + seq![' '] + w2) == w1 + seq![' '] + w2,
{
    lemma_without_dropped_keeps(w1);
    lemma_split_ws_word(w1);
    reveal_with_fuel(nonempty_parts, 3);
    reveal_with_fuel(join_words, 3);
    assert(seq![w1].drop_last() =~= Seq::<Seq<char>>::empty());
    let s = w1 + seq![' '] + w2;
    assert forall|i: int| 0 <= i < s.len() implies !is_dropped(#[trigger] s[i]) by {
        if i < w1.len() {
            assert(s[i] == w1[i]);
        } else if i > w1.len() {
            assert(s[i] == w2[i - w1.len() - 1]);
        }
    }
    lemma_without_dropped_keeps(s);
    let x = w1.push(' ');
    assert(s =~= x + w2);
    assert(x.drop_last() =~= w1);
    assert(split_whitespace_all(x) =~= seq![w1, Seq::<char>::empty()]);
    lemma_split_ws_append(x, w2);
    let parts = seq![w1, w2];
    assert(split_whitespace_all(s) =~= parts);
    assert(parts.drop_last() =~= seq![w1]);
    assert(nonempty_parts(parts) =~= parts);
    assert(join_words(parts) =~= s);
}

/// Whether `w` is a word as normalising leaves them: not empty, with neither whitespace
/// nor dropped characters.
pub open spec fn clean_word(w: Seq<char>) -> bool {
    w.len() > 0 && forall|j: int| 0 <= j < w.len() ==> !unicode_whitespace(#[trigger] w[j])
        && !is_dropped(w[j])
}

proof fn lemma_without_dropped_clean(s: Seq<char>)
    ensures
        forall|i: int| 0 <= i < without_dropped(s).len() ==> !is_dropped(#[trigger] without_dropped(s)[i]),
    decreases s.len(),
{
    if s.len() > 0 {
        lemma_without_dropped_clean(s.drop_last());
        let r = without_dropped(s.drop_last());
        if !is_dropped(s.last()) {
            assert forall|i: int| 0 <= i < r.push(s.last()).len() implies !is_dropped(
                #[trigger] r.push(s.last())[i],
            ) by {
                if i < r.len() {
                    assert(r.push(s.last())[i] == r[i]);
                }
            }
        }
    }
}

proof fn lemma_split_ws_pieces(s: Seq<char>)
    requires
        forall|i: int| 0 <= i < s.len() ==> !is_dropped(#[trigger] s[i]),
    ensures
        forall|k: int, j: int|
            0 <= k < split_whitespace_all(s).len() && 0 <= j < split_whitespace_all(s)[k].len()
                ==> !unicode_whitespace(#[trigger] split_whitespace_all(s)[k][j]) && !is_dropped(
                split_whitespace_all(s)[k][j],
            ),
    decreases s.len(),
{
    if s.len() > 0 {
        let t = s.drop_last();
        assert forall|i: int| 0 <= i < t.len() implies !is_dropped(#[trigger] t[i]) by {
            assert(t[i] == s[i]);
        }
        lemma_split_ws_pieces(t);
        lemma_split_ws_nonempty(t);
        let rest = split_whitespace_all(t);
        let c = s[s.len() - 1];
        if !unicode_whitespace(c) {
            let ps = rest.update(rest.len() - 1, rest.last().push(c));
            assert forall|k: int, j: int| 0 <= k < ps.len() && 0 <= j < ps[k].len() implies
                !unicode_whitespace(#[trigger] ps[k][j]) && !is_dropped(ps[k][j]) by {
                if k == rest.len() - 1 && j == rest.last().len() {
                } else if k == rest.len() - 1 {
                    assert(ps[k][j] == rest[k][j]);
                } else {
                    assert(ps[k] == rest[k]);
                }
            }
        } else {
            let ps = rest.push(Seq::<char>::empty());
            assert forall|k: int, j: int| 0 <= k < ps.len() && 0 <= j < ps[k].len() implies
                !unicode_whitespace(#[trigger] ps[k][j]) && !is_dropped(ps[k][j]) by {
                assert(ps[k] == rest[k]);
            }
        }
    }
}

proof fn lemma_nonempty_parts_clean(ps: Seq<Seq<char>>)
    requires
        forall|k: int, j: int|
            0 <= k < ps.len() && 0 <= j < ps[k].len() ==> !unicode_whitespace(#[trigger] ps[k][j])
                && !is_dropped(ps[k][j]),
    ensures
        forall|k: int| 0 <= k < nonempty_parts(ps).len() ==> clean_word(#[trigger] nonempty_parts(ps)[k]),
    decreases ps.len(),
{
    if ps.len() > 0 {
        let t = ps.drop_last();
        assert forall|k: int, j: int| 0 <= k < t.len() && 0 <= j < t[k].len() implies
            !unicode_whitespace(#[trigger] t[k][j]) && !is_dropped(t[k][j]) by {
            assert(t[k] == ps[k]);
        }
        lemma_nonempty_parts_clean(t);
        let r = nonempty_parts(t);
        if ps.last().len() > 0 {
            let w = ps.last();
            assert(clean_word(w)) by {
                assert forall|j: int| 0 <= j < w.len() implies !unicode_whitespace(#[trigger] w[j])
                    && !is_dropped(w[j]) by {
                    assert(w[j] == ps[ps.len() - 1][j]);
                }
            }
            assert forall|k: int| 0 <= k < r.push(w).len() implies clean_word(#[trigger] r.push(w)[k]) by {
                if k < r.len() {
                    assert(r.push(w)[k] == r[k]);
                }
            }
        }
    }
}

/// The words that normalising keeps are clean words.
proof fn lemma_words_clean(text: Seq<char>)
    ensures
        forall|k: int|
            0 <= k < words(without_dropped(text)).len() ==> clean_word(
                #[trigger] words(without_dropped(text))[k],
            ),
{
    lemma_without_dropped_clean(text);
    lemma_split_ws_pieces(without_dropped(text));
    lemma_nonempty_parts_clean(split_whitespace_all(without_dropped(text)));
}

proof fn lemma_join_clean(ws: Seq<Seq<char>>)
    requires
        forall|k: int| 0 <= k < ws.len() ==> clean_word(#[trigger] ws[k]),
    ensures
        forall|i: int| 0 <= i < join_words(ws).len() ==> !is_dropped(#[trigger] join_words(ws)[i]),
        split_whitespace_all(join_words(ws)) == (if ws.len() == 0 {
            seq![Seq::<char>::empty()]
        } else {
            ws
        }),
        nonempty_parts(ws) == ws,
    decreases ws.len(),
{
    if ws.len() == 0 {
    } else if ws.len() == 1 {
        assert(clean_word(ws[0]));
        lemma_split_ws_word(ws[0]);
        assert(seq![ws[0]] =~= ws);
        assert(ws.drop_last() =~= Seq::<Seq<char>>::empty());
        assert(nonempty_parts(ws.drop_last()) == ws.drop_last());
        assert(ws.drop_last().push(ws.last()) =~= ws);
    } else {
        let t = ws.drop_last();
        let w = ws.last();
        assert forall|k: int| 0 <= k < t.len() implies clean_word(#[trigger] t[k]) by {
            assert(t[k] == ws[k]);
        }
        lemma_join_clean(t);
        assert(clean_word(ws[ws.len() - 1]));
        let x = join_words(t);
        let j = join_words(ws);
        assert(j == x + seq![' '] + w);
        assert forall|i: int| 0 <= i < j.len() implies !is_dropped(#[trigger] j[i]) by {
            if i < x.len() {
                assert(j[i] == x[i]);
            } else if i > x.len() {
                assert(j[i] == w[i - x.len() - 1]);
            }
        }
        assert(x + seq![' '] + w =~= x.push(' ') + w);
        assert(x.push(' ').drop_last() =~= x);
        lemma_split_ws_append(x.push(' '), w);
        assert(split_whitespace_all(j) =~= t.push(w));
        assert(t.push(w) =~= ws);
    }
}

/// Normalising is idempotent, and what it gives holds no dropped character and is its
/// clean words joined by single spaces.
pub proof fn law_normalize_filler_idempotent(text: Seq<char>)
    ensures
        spec_normalize_filler(spec_normalize_filler(text)) == spec_normalize_filler(text),
        forall|i: int|
            0 <= i < spec_normalize_filler(text).len() ==> !is_dropped(
                #[trigger] spec_normalize_filler(text)[i],
            ),
        spec_normalize_filler(text) == join_words(words(without_dropped(text))),
        forall|k: int|
            0 <= k < words(without_dropped(text)).len() ==> clean_word(
                #[trigger] words(without_dropped(text))[k],
            ),
{
    let ws = words(without_dropped(text));
    lemma_words_clean(text);
    lemma_join_clean(ws);
    let n = join_words(ws);
    lemma_without_dropped_keeps(n);
    if ws.len() == 0 {
        assert(nonempty_parts(seq![Seq::<char>::empty()]) =~= Seq::<Seq<char>>::empty()) by {
            reveal_with_fuel(nonempty_parts, 2);
            assert(seq![Seq::<char>::empty()].drop_last() =~= Seq::<Seq<char>>::empty());
        }
    }
}

/// The filler phrases are already normal: "תודה" and "תודה רבה" normalise to themselves.
proof fn lemma_filler_phrases_normal()
    ensures
        spec_normalize_filler("תודה"@) == "תודה"@,
        spec_normalize_filler("תודה רבה"@) == "תודה רבה"@,
{
    reveal_strlit("תודה");
    reveal_strlit("רבה");
    reveal_strlit("תודה רבה");
    assert("תודה רבה"@ =~= "תודה"@ + seq![' '] + "רבה"@);
    lemma_normal_phrases("תודה"@, "רבה"@);
}

proof fn lemma_split_ws_nonempty(s: Seq<char>)
    ensures
        split_whitespace_all(s).len() >= 1,
    decreases s.len(),
{
    if s.len() > 0 {
        lemma_split_ws_nonempty(s.drop_last());
    }
}

fn collect_words(cleaned: &Vec<char>) -> (ws: Vec<Vec<char>>)
    ensures
        crate::text::views_of(ws@) == words(cleaned@),
{
    let mut done: Vec<Vec<char>> = Vec::new();
    let mut cur: Vec<char> = Vec::new();
    let n = cleaned.len();
    let mut i: usize = 0;
    assert(cleaned@.take(0) =~= Seq::<char>::empty());
    while i < n
        invariant
            i <= n == cleaned@.len(),
            split_whitespace_all(cleaned@.take(i as int)).len() >= 1,
            crate::text::views_of(done@) == nonempty_parts(
                split_whitespace_all(cleaned@.take(i as int)).drop_last(),
            ),
            cur@ == split_whitespace_all(cleaned@.take(i as int)).last(),
        decreases n - i,
    {
        let c = cleaned[i];
        let ghost prefix = cleaned@.take(i as int);
        let ghost parts = split_whitespace_all(prefix);
        assert(cleaned@.take(i + 1).drop_last() =~= prefix);
        assert(cleaned@.take(i + 1).last() == c);
        let ghost before = crate::text::views_of(done@);
        if is_whitespace(c) {
            let ghost next = split_whitespace_all(cleaned@.take(i + 1));
            assert(next == parts.push(Seq::<char>::empty()));
            assert(next.drop_last() =~= parts);
            assert(parts =~= parts.drop_last().push(parts.last()));
            if cur.len() > 0 {
                let w = cur;
                done.push(w);
                cur = Vec::new();
                assert(crate::text::views_of(done@) =~= before.push(parts.last()));
            } else {
                cur = Vec::new();
            }
        } else {
            cur.push(c);
            let ghost next = split_whitespace_all(cleaned@.take(i + 1));
            assert(next == parts.update(parts.len() - 1, parts.last().push(c)));
            assert(next.drop_last() =~= parts.drop_last());
        }
        i = i + 1;
    }
    assert(cleaned@.take(n as int) =~= cleaned@);
    let ghost parts = split_whitespace_all(cleaned@);
    assert(parts =~= parts.drop_last().push(parts.last()));
    let ghost before = crate::text::views_of(done@);
    if cur.len() > 0 {
        done.push(cur);
        assert(crate::text::views_of(done@) =~= before.push(parts.last()));
    }
    done
}

/// `text` without punctuation, its words joined by single spaces, so that "תודה.",
/// "תודה רבה!" and "תודה  רבה" compare equal to their base phrase.
pub fn normalize_filler(text: &str) -> (r: String)
    ensures
        r@ == spec_normalize_filler(text@),
{
    let cs = chars_of(text);
    let mut cleaned: Vec<char> = Vec::new();
    let mut i: usize = 0;
    assert(cs@.take(0) =~= Seq::<char>::empty());
    while i < cs.len()
        invariant
            i <= cs@.len(),
            cs@ == text@,
            cleaned@ == without_dropped(cs@.take(i as int)),
        decreases cs@.len() - i,
    {
        let c = cs[i];
        assert(cs@.take(i + 1).drop_last() =~= cs@.take(i as int));
        let keep = !(is_ascii_punctuation(c) || c == '،' || c == '؛' || c == '׃' || c == '״' || c
            == '׳' || c == '…');
        if keep {
            cleaned.push(c);
        }
        i = i + 1;
    }
    assert(cs@.take(cs@.len() as int) =~= cs@);
    let ws = collect_words(&cleaned);
    let mut out: Vec<char> = Vec::new();
    let mut k: usize = 0;
    while k < ws.len()
        invariant
            k <= ws@.len(),
            out@ == join_words(crate::text::views_of(ws@).take(k as int)),
        decreases ws@.len() - k,
    {
        let ghost vs = crate::text::views_of(ws@);
        assert(vs.take(k + 1).drop_last() =~= vs.take(k as int));
        if k > 0 {
            out.push(' ');
        }
        let w = &ws[k];
        let mut j: usize = 0;
        let ghost base = out@;
        while j < w.len()
            invariant
                j <= w@.len(),
                out@ == base + w@.take(j as int),
            decreases w@.len() - j,
        {
            out.push(w[j]);
            assert(w@.take(j + 1) =~= w@.take(j as int).push(w@[j as int]));
            j = j + 1;
        }
        assert(w@.take(w@.len() as int) =~= w@);
        assert(vs.take(k + 1).last() == w@);
        if k > 0 {
            assert(out@ =~= join_words(vs.take(k as int)) + seq![' '] + w@);
        } else {
            assert(vs.take(1) =~= seq![w@]);
            assert(out@ =~= w@);
        }
        k = k + 1;
    }
    assert(crate::text::views_of(ws@).take(ws@.len() as int) =~= crate::text::views_of(ws@));
    string_of(&out)
}

/// Whether `text` is only a Hebrew filler phrase ("תודה" or "תודה רבה", with any
/// surrounding punctuation or whitespace) that should be discarded.
pub fn is_hebrew_filler(text: &str) -> (b: bool)
    ensures
        b == spec_is_hebrew_filler(text@),
        b == (spec_normalize_filler(text@) == "תודה"@ || spec_normalize_filler(text@)
            == "תודה רבה"@),
{
    proof {
        lemma_filler_phrases_normal();
        reveal_strlit("תודה");
        reveal_strlit("תודה רבה");
    }
    let normalized = normalize_filler(text);
    if normalized.as_str().is_empty() {
        return false;
    }
    let p0 = normalize_filler("תודה");
    let p1 = normalize_filler("תודה רבה");
    crate::text::str_eq(p0.as_str(), normalized.as_str()) || crate::text::str_eq(
        p1.as_str(),
        normalized.as_str(),
    )
}

} // verus!
