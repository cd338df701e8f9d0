//! Character-level helpers and transcript normalisation.
use vstd::prelude::*;

verus! {

/// Unicode `White_Space`, the property that `char::is_whitespace` tests.
pub open spec fn is_whitespace(c: char) -> bool {
    ||| ('\u{9}' <= c && c <= '\u{d}')
    ||| c == ' '
    ||| c == '\u{85}'
    ||| c == '\u{a0}'
    ||| c == '\u{1680}'
    ||| ('\u{2000}' <= c && c <= '\u{200a}')
    ||| c == '\u{2028}'
    ||| c == '\u{2029}'
    ||| c == '\u{202f}'
    ||| c == '\u{205f}'
    ||| c == '\u{3000}'
}

/// The character that `char::to_ascii_lowercase` gives.
pub open spec fn ascii_lower(c: char) -> char {
    if 'A' <= c && c <= 'Z' {
        ((c as u32) + 32) as char
    } else {
        c
    }
}

pub open spec fn ascii_lower_seq(s: Seq<char>) -> Seq<char> {
    s.map_values(|c: char| ascii_lower(c))
}

/// The texts of a list of strings.
pub open spec fn strings_view(v: Seq<String>) -> Seq<Seq<char>> {
    v.map_values(|s: String| s@)
}

pub open spec fn is_ascii_digit(c: char) -> bool {
    '0' <= c && c <= '9'
}

/// Appends one character to a string.
#[verifier::external_body]
pub(crate) fn push_char(s: &mut String, c: char)
    ensures
        final(s)@ == old(s)@.push(c),
{
    s.push(c);
}

pub fn is_whitespace_char(c: char) -> (r: bool)
    ensures
        r == is_whitespace(c),
{
    ('\u{9}' <= c && c <= '\u{d}') || c == ' ' || c == '\u{85}' || c == '\u{a0}' || c
        == '\u{1680}' || ('\u{2000}' <= c && c <= '\u{200a}') || c == '\u{2028}' || c
        == '\u{2029}' || c == '\u{202f}' || c == '\u{205f}' || c == '\u{3000}'
}

pub fn lower_ascii_char(c: char) -> (r: char)
    ensures
        r == ascii_lower(c),
{
    if 'A' <= c && c <= 'Z' {
        let b: u8 = (c as u8) + 32;
        b as char
    } else {
        c
    }
}

/// The characters of a string, in order.
pub fn chars_of(s: &str) -> (v: Vec<char>)
    ensures
        v@ == s@,
{
    let mut v: Vec<char> = Vec::new();
    for c in it: s.chars()
        invariant
            it.seq() == s@,
            v@ == s@.take(it.index()),
    {
        v.push(c);
        assert(s@.take(it.index() + 1) =~= s@.take(it.index()).push(c));
    }
    assert(s@.take(s@.len() as int) =~= s@);
    v
}

pub fn chars_equal(a: &Vec<char>, b: &Vec<char>) -> (r: bool)
    ensures
        r == (a@ == b@),
{
    if a.len() != b.len() {
        return false;
    }
    let mut i: usize = 0;
    while i < a.len()
        invariant
            a@.len() == b@.len(),
            i <= a@.len(),
            forall|k: int| 0 <= k < i ==> a@[k] == b@[k],
        decreases a@.len() - i,
    {
        if a[i] != b[i] {
            return false;
        }
        i = i + 1;
    }
    assert(a@ =~= b@);
    true
}

/// Whether two strings hold the same characters.
pub fn str_eq(a: &str, b: &str) -> (r: bool)
    ensures
        r == (a@ == b@),
{
    let va = chars_of(a);
    let vb = chars_of(b);
    chars_equal(&va, &vb)
}

/// Characters of a string with ASCII letters folded to lower case,
/// as `str::to_ascii_lowercase` does.
pub fn lower_ascii_chars(s: &str) -> (v: Vec<char>)
    ensures
        v@ == ascii_lower_seq(s@),
{
    let mut v: Vec<char> = Vec::new();
    for c in it: s.chars()
        invariant
            it.seq() == s@,
            v@ == ascii_lower_seq(s@.take(it.index())),
    {
        let l = lower_ascii_char(c);
        v.push(l);
        assert(ascii_lower_seq(s@.take(it.index() + 1)) =~= ascii_lower_seq(
            s@.take(it.index()),
        ).push(l));
    }
    assert(s@.take(s@.len() as int) =~= s@);
    v
}

// ---------------------------------------------------------------------------
// Words and transcript normalisation
// ---------------------------------------------------------------------------

/// The maximal runs of non-whitespace characters of `s`, in order
/// (what `str::split_whitespace` yields).
pub open spec fn words(s: Seq<char>) -> Seq<Seq<char>>
    decreases s.len(),
{
    if s.len() == 0 {
        Seq::empty()
    } else {
        let w = words(s.drop_last());
        let c = s.last();
        if is_whitespace(c) {
            w
        } else if s.len() >= 2 && !is_whitespace(s[s.len() - 2]) {
            w.drop_last().push(w.last().push(c))
        } else {
            w.push(seq![c])
        }
    }
}

/// The words joined by single spaces.
pub open spec fn join_words(ws: Seq<Seq<char>>) -> Seq<char>
    decreases ws.len(),
{
    if ws.len() == 0 {
        Seq::empty()
    } else if ws.len() == 1 {
        ws[0]
    } else {
        join_words(ws.drop_last()) + seq![' '] + ws.last()
    }
}

/// What `normalize_transcript` gives for `s`.
pub open spec fn normalized(s: Seq<char>) -> Seq<char> {
    join_words(words(s))
}

/// A word: at least one character, none of them whitespace.
pub open spec fn is_word(w: Seq<char>) -> bool {
    w.len() > 0 && forall|k: int| 0 <= k < w.len() ==> !is_whitespace(#[trigger] w[k])
}

pub open spec fn all_words(ws: Seq<Seq<char>>) -> bool {
    forall|k: int| 0 <= k < ws.len() ==> is_word(#[trigger] ws[k])
}

proof fn lemma_words_nonempty_after_word_char(s: Seq<char>)
    requires
        s.len() > 0,
        !is_whitespace(s.last()),
    ensures
        words(s).len() > 0,
    decreases s.len(),
{
}

/// Every element of `words(s)` is a word, and there is none when `s` holds
/// only whitespace.
pub proof fn lemma_words_are_words(s: Seq<char>)
    ensures
        all_words(words(s)),
    decreases s.len(),
{
    if s.len() > 0 {
        lemma_words_are_words(s.drop_last());
        let w = words(s.drop_last());
        let c = s.last();
        if !is_whitespace(c) && s.len() >= 2 && !is_whitespace(s[s.len() - 2]) {
            lemma_words_nonempty_after_word_char(s.drop_last());
            let x = w.last();
            assert(is_word(w[w.len() - 1]));
            assert(is_word(x.push(c))) by {
                assert forall|k: int| 0 <= k < x.push(c).len() implies !is_whitespace(
                    #[trigger] x.push(c)[k],
                ) by {
                    if k < x.len() {
                        assert(x.push(c)[k] == x[k]);
                    }
                }
            }
            let r = w.drop_last().push(x.push(c));
            assert forall|k: int| 0 <= k < r.len() implies is_word(#[trigger] r[k]) by {
                if k < r.len() - 1 {
                    assert(r[k] == w[k]);
                }
            }
        } else if !is_whitespace(c) {
            let r = w.push(seq![c]);
            assert forall|k: int| 0 <= k < r.len() implies is_word(#[trigger] r[k]) by {
                if k < r.len() - 1 {
                    assert(r[k] == w[k]);
                }
            }
        }
    }
}

proof fn lemma_join_push(ws: Seq<Seq<char>>, x: Seq<char>)
    ensures
        join_words(ws.push(x)) == (if ws.len() == 0 {
            x
        } else {
            join_words(ws) + seq![' '] + x
        }),
{
    assert(ws.push(x).drop_last() =~= ws);
}

proof fn lemma_join_extend_last(ws: Seq<Seq<char>>, c: char)
    requires
        ws.len() > 0,
    ensures
        join_words(ws.drop_last().push(ws.last().push(c))) == join_words(ws).push(c),
{
    let v = ws.drop_last();
    let x = ws.last();
    lemma_join_push(v, x.push(c));
    lemma_join_push(v, x);
    assert(v.push(x) =~= ws);
    if v.len() == 0 {
    } else {
        assert(join_words(v) + seq![' '] + x.push(c) =~= (join_words(v) + seq![' '] + x).push(c));
    }
}

proof fn lemma_join_empty(ws: Seq<Seq<char>>)
    requires
        all_words(ws),
    ensures
        (join_words(ws).len() == 0) == (ws.len() == 0),
    decreases ws.len(),
{
    if ws.len() == 1 {
        assert(is_word(ws[0]));
    } else if ws.len() > 1 {
        assert(is_word(ws[ws.len() - 1]));
    }
}

/// Collapses every run of whitespace into one space and drops leading and
/// trailing whitespace.
pub fn normalize_transcript(text: &str) -> (r: String)
    ensures
        r@ == normalized(text@),
{
    let mut out = String::new();
    let mut after_space: bool = true;
    let mut any_word: bool = false;
    for c in it: text.chars()
        invariant
            it.seq() == text@,
            0 <= it.index() <= text@.len(),
            out@ == join_words(words(text@.take(it.index()))),
            any_word == (words(text@.take(it.index())).len() > 0),
            after_space == (it.index() == 0 || is_whitespace(text@[it.index() - 1])),
    {
        proof {
            let t = text@.take(it.index() + 1);
            assert(t.drop_last() =~= text@.take(it.index()));
            assert(t.last() == c);
            if it.index() > 0 {
                assert(t[t.len() - 2] == text@[it.index() - 1]);
            }
            lemma_words_are_words(text@.take(it.index()));
            lemma_join_empty(words(text@.take(it.index())));
        }
        if is_whitespace_char(c) {
            after_space = true;
        } else {
            if after_space {
                if any_word {
                    push_char(&mut out, ' ');
                }
                push_char(&mut out, c);
                proof {
                    lemma_join_push(words(text@.take(it.index())), seq![c]);
                    let w = join_words(words(text@.take(it.index())));
                    if w.len() > 0 {
                        assert(w + seq![' '] + seq![c] =~= w.push(' ').push(c));
                    } else {
                        assert(seq![c] =~= w.push(c));
                    }
                }
            } else {
                proof {
                    lemma_words_nonempty_after_word_char(text@.take(it.index()));
                    lemma_join_extend_last(words(text@.take(it.index())), c);
                }
                push_char(&mut out, c);
            }
            after_space = false;
            any_word = true;
        }
    }
    assert(text@.take(text@.len() as int) =~= text@);
    out
}

// ---------------------------------------------------------------------------
// Laws of normalisation
// ---------------------------------------------------------------------------

proof fn lemma_words_append_space(p: Seq<char>)
    ensures
        words(p.push(' ')) == words(p),
{
    assert(p.push(' ').drop_last() =~= p);
}

/// Appending a word to text that is empty or ends in whitespace adds that
/// word to the words of the text.
proof fn lemma_words_append_word(p: Seq<char>, w: Seq<char>)
    requires
        p.len() == 0 || is_whitespace(p.last()),
        is_word(w),
    ensures
        words(p + w) == words(p).push(w),
    decreases w.len(),
{
    let s = p + w;
    assert(s.drop_last() =~= p + w.drop_last());
    assert(s.last() == w.last());
    assert(!is_whitespace(w[w.len() - 1]));
    if w.len() == 1 {
        assert(s.drop_last() =~= p);
        if s.len() >= 2 {
            assert(s[s.len() - 2] == p.last());
        }
        assert(seq![w.last()] =~= w);
    } else {
        let v = w.drop_last();
        assert(is_word(v)) by {
            assert forall|k: int| 0 <= k < v.len() implies !is_whitespace(#[trigger] v[k]) by {
                assert(v[k] == w[k]);
            }
        }
        lemma_words_append_word(p, v);
        assert(s[s.len() - 2] == w[w.len() - 2]);
        assert(words(p).push(v).drop_last() =~= words(p));
        assert(v.push(w.last()) =~= w);
    }
}

proof fn lemma_words_of_join(ws: Seq<Seq<char>>)
    requires
        all_words(ws),
    ensures
        words(join_words(ws)) == ws,
    decreases ws.len(),
{
    if ws.len() == 0 {
    } else if ws.len() == 1 {
        assert(is_word(ws[0]));
        lemma_words_append_word(Seq::empty(), ws[0]);
        assert(Seq::<char>::empty() + ws[0] =~= ws[0]);
        assert(Seq::<Seq<char>>::empty().push(ws[0]) =~= ws);
    } else {
        let init = ws.drop_last();
        assert(all_words(init)) by {
            assert forall|k: int| 0 <= k < init.len() implies is_word(#[trigger] init[k]) by {
                assert(init[k] == ws[k]);
            }
        }
        lemma_words_of_join(init);
        let p = join_words(init) + seq![' '];
        lemma_words_append_space(join_words(init));
        assert(join_words(init).push(' ') =~= p);
        assert(is_word(ws[ws.len() - 1]));
        lemma_words_append_word(p, ws.last());
        assert(init.push(ws.last()) =~= ws);
    }
}

/// The characters of `s` that are not whitespace, in order.
pub open spec fn non_space(s: Seq<char>) -> Seq<char> {
    s.filter(|c: char| !is_whitespace(c))
}

/// Among ASCII characters, exactly tab, line feed, vertical tab, form feed,
/// carriage return and space are whitespace: every letter, digit and
/// punctuation mark (`!` to `~`) is not. Above ASCII, no character from
/// U+00A1 to U+167F, and none above U+3000, is whitespace.
pub proof fn law_whitespace_characters(c: char)
    ensures
        (c as u32) < 0x80 ==> (is_whitespace(c) <==> (c == '\t' || c == '\n' || c == '\u{b}'
            || c == '\u{c}' || c == '\r' || c == ' ')),
        ('!' <= c && c <= '~') ==> !is_whitespace(c),
        ('\u{a1}' <= c && c <= '\u{167f}') ==> !is_whitespace(c),
        ('\u{3000}' < c) ==> !is_whitespace(c),
        !is_whitespace('\''),
        !is_whitespace('\u{e9}'),
{
}

proof fn lemma_non_space_push(s: Seq<char>, c: char)
    ensures
        non_space(s.push(c)) == (if is_whitespace(c) {
            non_space(s)
        } else {
            non_space(s).push(c)
        }),
{
    reveal(Seq::filter);
    assert(s.push(c).drop_last() =~= s);
}

proof fn lemma_non_space_add(a: Seq<char>, b: Seq<char>)
    ensures
        non_space(a + b) == non_space(a) + non_space(b),
    decreases b.len(),
{
    reveal(Seq::filter);
    if b.len() == 0 {
        assert(a + b =~= a);
        assert(non_space(a) + non_space(b) =~= non_space(a));
    } else {
        let p = b.drop_last();
        let c = b.last();
        lemma_non_space_add(a, p);
        assert(a + b =~= (a + p).push(c));
        assert(p.push(c) =~= b);
        lemma_non_space_push(a + p, c);
        lemma_non_space_push(p, c);
        if !is_whitespace(c) {
            assert(non_space(a) + non_space(p).push(c) =~= (non_space(a) + non_space(p)).push(
                c,
            ));
        }
    }
}

/// Normalisation removes only whitespace: the characters that are not
/// whitespace are the same, in the same order, before and after.
pub proof fn law_normalize_keeps_text(s: Seq<char>)
    ensures
        non_space(normalized(s)) == non_space(s),
    decreases s.len(),
{
    reveal(Seq::filter);
    if s.len() > 0 {
        let p = s.drop_last();
        let c = s.last();
        let w = words(p);
        law_normalize_keeps_text(p);
        assert(p.push(c) =~= s);
        lemma_non_space_push(p, c);
        if is_whitespace(c) {
        } else if s.len() >= 2 && !is_whitespace(s[s.len() - 2]) {
            lemma_words_nonempty_after_word_char(p);
            lemma_join_extend_last(w, c);
            lemma_non_space_push(join_words(w), c);
        } else {
            lemma_join_push(w, seq![c]);
            assert(seq![c] =~= Seq::<char>::empty().push(c));
            lemma_non_space_push(Seq::<char>::empty(), c);
            assert(non_space(Seq::<char>::empty()) =~= Seq::<char>::empty());
            if w.len() > 0 {
                assert(seq![' '] =~= Seq::<char>::empty().push(' '));
                lemma_non_space_push(Seq::<char>::empty(), ' ');
                lemma_non_space_add(join_words(w) + seq![' '], seq![c]);
                lemma_non_space_add(join_words(w), seq![' ']);
                assert(non_space(join_words(w)) + non_space(seq![' ']) =~= non_space(
                    join_words(w),
                ));
                assert(non_space(join_words(w)) + seq![c] =~= non_space(join_words(w)).push(c));
            }
        }
    }
}

/// Normalisation keeps the words of a transcript: the same words, in the
/// same order.
pub proof fn law_normalize_keeps_words(s: Seq<char>)
    ensures
        words(normalized(s)) == words(s),
{
    lemma_words_are_words(s);
    lemma_words_of_join(words(s));
}

/// Normalising a normalised transcript changes nothing.
pub proof fn law_normalize_idempotent(s: Seq<char>)
    ensures
        normalized(normalized(s)) == normalized(s),
{
    law_normalize_keeps_words(s);
}

/// A normalised transcript is empty exactly when the input has no word.
pub proof fn law_normalized_empty(s: Seq<char>)
    ensures
        (normalized(s).len() == 0) == (words(s).len() == 0),
{
    lemma_words_are_words(s);
    lemma_join_empty(words(s));
}

} // verus!
