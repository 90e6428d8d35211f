//! Greedy word wrapping of message text for display.
use vstd::prelude::*;
use crate::chars::{whitespace, is_whitespace, chars_of, string_of};

verus! {

/// Columns held back on every display line for the speaker label.
pub const LABEL_MARGIN: usize = 12;

/// The whitespace-delimited words of `s`, in order: maximal non-empty runs of
/// scalar values that are not whitespace.
pub open spec fn words(s: Seq<char>) -> Seq<Seq<char>>
    decreases s.len(),
{
    if s.len() == 0 {
        seq![]
    } else {
        let ws = words(s.drop_last());
        let c = s.last();
        if whitespace(c) {
            ws
        } else if s.len() >= 2 && !whitespace(s[s.len() - 2]) {
            ws.update(ws.len() - 1, ws.last().push(c))
        } else {
            ws.push(seq![c])
        }
    }
}

/// A line as displayed: the open line without the space that follows its last word.
pub open spec fn closed(open: Seq<char>) -> Seq<char> {
    if open.len() == 0 {
        open
    } else {
        open.drop_last()
    }
}

/// Greedy packing of `ws`: the lines closed so far, and the open line in which
/// every word is followed by one space. A word starts a new line when the open
/// line, the word and the label margin together exceed `max_width`.
pub open spec fn pack(ws: Seq<Seq<char>>, max_width: int) -> (Seq<Seq<char>>, Seq<char>)
    decreases ws.len(),
{
    if ws.len() == 0 {
        (seq![], seq![])
    } else {
        let prev = pack(ws.drop_last(), max_width);
        let w = ws.last();
        if prev.1.len() + w.len() + LABEL_MARGIN > max_width {
            (prev.0.push(closed(prev.1)), w.push(' '))
        } else {
            (prev.0, prev.1 + w.push(' '))
        }
    }
}

/// The display lines that the words `ws` are packed into: the closed lines,
/// then the open line if it holds a word.
pub open spec fn lines_of(ws: Seq<Seq<char>>, max_width: int) -> Seq<Seq<char>> {
    let p = pack(ws, max_width);
    if p.1.len() > 0 {
        p.0.push(closed(p.1))
    } else {
        p.0
    }
}

/// The display lines of `text` for a width of `max_width`.
pub open spec fn wrapped(text: Seq<char>, max_width: int) -> Seq<Seq<char>> {
    lines_of(words(text), max_width)
}

proof fn lemma_pack_fits(ws: Seq<Seq<char>>, max_width: int)
    requires
        forall|i: int| 0 <= i < ws.len() ==> #[trigger] ws[i].len() + LABEL_MARGIN <= max_width,
    ensures
        forall|i: int|
            0 <= i < pack(ws, max_width).0.len() ==> #[trigger] pack(ws, max_width).0[i].len()
                + LABEL_MARGIN <= max_width,
        pack(ws, max_width).1.len() > 0 ==> closed(pack(ws, max_width).1).len() + LABEL_MARGIN
            <= max_width,
    decreases ws.len(),
{
    if ws.len() > 0 {
        let rest = ws.drop_last();
        assert forall|i: int| 0 <= i < rest.len() implies #[trigger] rest[i].len() + LABEL_MARGIN
            <= max_width by {
            assert(rest[i] == ws[i]);
        }
        lemma_pack_fits(rest, max_width);
        assert(ws.last() == ws[ws.len() - 1]);
        let w = ws.last();
        assert(w.push(' ').drop_last() =~= w);
        let prev = pack(rest, max_width);
        if prev.1.len() > 0 {
            assert((prev.1 + w.push(' ')).drop_last() =~= prev.1 + w);
        } else {
            assert((prev.1 + w.push(' ')).drop_last() =~= w);
        }
    }
}

/// Every display line leaves the label margin free, provided that each word
/// of `text` fits beside the margin on a line of its own.
pub proof fn lemma_wrapped_lines_fit(text: Seq<char>, max_width: int)
    requires
        forall|i: int|
            0 <= i < words(text).len() ==> #[trigger] words(text)[i].len() + LABEL_MARGIN
                <= max_width,
    ensures
        forall|i: int|
            0 <= i < wrapped(text, max_width).len() ==> #[trigger] wrapped(text, max_width)[i].len()
                + LABEL_MARGIN <= max_width,
{
    lemma_pack_fits(words(text), max_width);
    let p = pack(words(text), max_width);
    assert forall|i: int| 0 <= i < wrapped(text, max_width).len() implies #[trigger] wrapped(
        text,
        max_width,
    )[i].len() + LABEL_MARGIN <= max_width by {
        if i < p.0.len() {
            assert(wrapped(text, max_width)[i] == p.0[i]);
        }
    }
}

/// Wrapping depends on the text and the width alone: any two results that
/// `wrap_text` may give for the same arguments are the same lines.
pub proof fn lemma_wrap_deterministic(
    text: Seq<char>,
    max_width: int,
    a: Seq<Seq<char>>,
    b: Seq<Seq<char>>,
)
    requires
        a == wrapped(text, max_width),
        b == wrapped(text, max_width),
    ensures
        a == b,
{
}

proof fn lemma_words_nonempty(s: Seq<char>)
    requires
        s.len() > 0,
        !whitespace(s.last()),
    ensures
        words(s).len() > 0,
        words(s).last().len() > 0,
    decreases s.len(),
{
    if s.len() >= 2 && !whitespace(s[s.len() - 2]) {
        lemma_words_nonempty(s.drop_last());
    }
}

/// Splits `cs` into its whitespace-delimited words.
fn split_words(cs: &Vec<char>) -> (r: Vec<Vec<char>>)
    ensures
        r.deep_view() == words(cs@),
{
    let mut done: Vec<Vec<char>> = Vec::new();
    let mut cur: Vec<char> = Vec::new();
    let mut i: usize = 0;
    while i < cs.len()
        invariant
            i <= cs@.len(),
            cur@.len() > 0 <==> (i > 0 && !whitespace(cs@[i - 1])),
            words(cs@.take(i as int)) == if cur@.len() > 0 {
                done.deep_view().push(cur@)
            } else {
                done.deep_view()
            },
        decreases cs@.len() - i,
    {
        let c = cs[i];
        let ghost before = cs@.take(i as int);
        assert(cs@.take(i + 1).drop_last() =~= before);
        if is_whitespace(c) {
            if cur.len() > 0 {
                let ghost dv = done.deep_view();
                let ghost w = cur@;
                assert(cur.deep_view() =~= w);
                done.push(cur);
                cur = Vec::new();
                assert(done.deep_view() =~= dv.push(w));
            }
        } else {
            let ghost dv = done.deep_view();
            if cur.len() > 0 {
                proof {
                    lemma_words_nonempty(before);
                }
                let ghost oc = cur@;
                cur.push(c);
                assert(dv.push(cur@) =~= dv.push(oc).update(dv.len() as int, oc.push(c)));
            } else {
                cur.push(c);
                assert(cur@ =~= seq![c]);
            }
        }
        i = i + 1;
    }
    assert(cs@.take(cs@.len() as int) =~= cs@);
    if cur.len() > 0 {
        let ghost dv = done.deep_view();
        assert(cur.deep_view() =~= cur@);
        done.push(cur);
        assert(done.deep_view() =~= dv.push(cur@));
    }
    done
}

/// Appends `word` and one space to `open`.
fn push_word(open: &mut Vec<char>, word: &Vec<char>)
    ensures
        final(open)@ == old(open)@ + word@.push(' '),
{
    let mut i: usize = 0;
    while i < word.len()
        invariant
            i <= word@.len(),
            open@ == old(open)@ + word@.take(i as int),
        decreases word@.len() - i,
    {
        open.push(word[i]);
        i = i + 1;
        assert(open@ =~= old(open)@ + word@.take(i as int));
    }
    open.push(' ');
    assert(open@ =~= old(open)@ + word@.push(' '));
}

/// Packs the whitespace-delimited words of `text` greedily into display lines
/// of `max_width` columns, of which `LABEL_MARGIN` are held back for the
/// speaker label. Words are never broken: a word wider than the space left
/// stands on a line of its own.
pub fn wrap_text(text: String, max_width: usize) -> (lines: Vec<String>)
    ensures
        lines.deep_view() == wrapped(text@, max_width as int),
{
    let cs = chars_of(text.as_str());
    let ws = split_words(&cs);
    wrap_words(&ws, max_width)
}

/// Packs the words `ws`, in order, greedily into display lines of `max_width`
/// columns, as `wrap_text` does with the words of a text.
pub fn wrap_words(ws: &Vec<Vec<char>>, max_width: usize) -> (lines: Vec<String>)
    ensures
        lines.deep_view() == lines_of(ws.deep_view(), max_width as int),
{
    let mut lines: Vec<String> = Vec::new();
    let mut open: Vec<char> = Vec::new();
    let mut k: usize = 0;
    while k < ws.len()
        invariant
            k <= ws@.len(),
            pack(ws.deep_view().take(k as int), max_width as int) == (lines.deep_view(), open@),
        decreases ws@.len() - k,
    {
        let word = &ws[k];
        let ghost prefix = ws.deep_view().take(k + 1);
        assert(prefix.drop_last() =~= ws.deep_view().take(k as int));
        assert(prefix.last() == word@);
        let n = open.len();
        if n > max_width || max_width - n < LABEL_MARGIN || max_width - n - LABEL_MARGIN < word.len() {
            let ghost shown = closed(open@);
            let ghost dv = lines.deep_view();
            open.pop();
            assert(open@ =~= shown);
            lines.push(string_of(&open));
            assert(lines.deep_view() =~= dv.push(shown));
            open = Vec::new();
            assert(open@ + word@.push(' ') =~= word@.push(' '));
        }
        push_word(&mut open, word);
        k = k + 1;
    }
    assert(ws.deep_view().take(ws@.len() as int) =~= ws.deep_view());
    if open.len() > 0 {
        let ghost shown = closed(open@);
        let ghost dv = lines.deep_view();
        open.pop();
        assert(open@ =~= shown);
        lines.push(string_of(&open));
        assert(lines.deep_view() =~= dv.push(shown));
    }
    lines
}

} // verus!
