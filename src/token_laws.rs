//! Properties of tokenization that hold for every line.
use vstd::prelude::*;
use crate::tokenizer::{
    flush, is_quote, is_termination, is_white_space, scan, tokenize, trim, trim_end, trim_start,
    ScanState,
};

verus! {

/// The pieces of `s` between termination characters: `n` termination
/// characters give `n + 1` pieces, some of them possibly empty.
pub open spec fn fields(s: Seq<char>) -> Seq<Seq<char>>
    decreases s.len(),
{
    if s.len() == 0 {
        seq![Seq::empty()]
    } else {
        let f = fields(s.drop_last());
        if is_termination(s.last()) {
            f.push(Seq::empty())
        } else {
            f.update(f.len() - 1, f.last().push(s.last()))
        }
    }
}

/// Each piece trimmed, and the pieces that are then empty dropped.
pub open spec fn trimmed_nonempty(fs: Seq<Seq<char>>) -> Seq<Seq<char>> {
    fs.map_values(|f: Seq<char>| trim(f)).filter(|w: Seq<char>| w.len() > 0)
}

/// `s` split on runs of termination characters, each piece trimmed, and
/// empty pieces discarded.
pub open spec fn split_words(s: Seq<char>) -> Seq<Seq<char>> {
    trimmed_nonempty(fields(s))
}

/// A token as tokenization produces it: non-empty, and with no white space at
/// either end.
pub open spec fn is_clean(t: Seq<char>) -> bool {
    t.len() > 0 && !is_white_space(t[0]) && !is_white_space(t.last())
}

proof fn lemma_trimmed_nonempty_push(fs: Seq<Seq<char>>, x: Seq<char>)
    ensures
        trimmed_nonempty(fs.push(x)) == flush(trimmed_nonempty(fs), x),
{
    reveal(Seq::filter);
    let m = fs.push(x).map_values(|f: Seq<char>| trim(f));
    assert(m.drop_last() =~= fs.map_values(|f: Seq<char>| trim(f)));
    assert(m.last() == trim(x));
}

proof fn lemma_fields_len(s: Seq<char>)
    ensures
        fields(s).len() >= 1,
    decreases s.len(),
{
    if s.len() > 0 {
        lemma_fields_len(s.drop_last());
    }
}

proof fn lemma_scan_unquoted(s: Seq<char>)
    requires
        forall|i: int| 0 <= i < s.len() ==> !is_quote(#[trigger] s[i]),
    ensures
        scan(s).quote is None,
        scan(s).buf == fields(s).last(),
        scan(s).tokens == trimmed_nonempty(fields(s).drop_last()),
    decreases s.len(),
{
    if s.len() == 0 {
        assert(fields(s).drop_last() =~= Seq::<Seq<char>>::empty());
        reveal(Seq::filter);
    } else {
        let p = s.drop_last();
        assert forall|i: int| 0 <= i < p.len() implies !is_quote(#[trigger] p[i]) by {
            assert(p[i] == s[i]);
        }
        lemma_scan_unquoted(p);
        lemma_fields_len(p);
        let f = fields(p);
        assert(!is_quote(s[s.len() - 1]));
        if is_termination(s.last()) {
            assert(f.push(Seq::empty()).drop_last() =~= f);
            lemma_trimmed_nonempty_push(f.drop_last(), f.last());
            assert(f.drop_last().push(f.last()) =~= f);
        } else {
            assert(f.update(f.len() - 1, f.last().push(s.last())).drop_last() =~= f.drop_last());
        }
    }
}

/// A line without quote characters has as its tokens the line split on runs
/// of spaces and newlines, each piece trimmed, with empty pieces discarded.
pub proof fn lemma_unquoted_line_splits_on_termination(s: Seq<char>)
    requires
        forall|i: int| 0 <= i < s.len() ==> !is_quote(#[trigger] s[i]),
    ensures
        tokenize(s) == split_words(s),
{
    lemma_scan_unquoted(s);
    lemma_fields_len(s);
    let f = fields(s);
    lemma_trimmed_nonempty_push(f.drop_last(), f.last());
    assert(f.drop_last().push(f.last()) =~= f);
}

proof fn lemma_trim_of_clean(t: Seq<char>)
    requires
        is_clean(t),
    ensures
        trim(t) == t,
{
}

proof fn lemma_scan_quoted(q: char, body: Seq<char>, k: int)
    requires
        is_quote(q),
        0 <= k <= body.len(),
        forall|i: int| 0 <= i < body.len() ==> #[trigger] body[i] != q,
    ensures
        scan(seq![q] + body.take(k)) == (ScanState {
            tokens: Seq::empty(),
            buf: body.take(k),
            quote: Some(q),
        }),
    decreases k,
{
    let s = seq![q] + body.take(k);
    if k == 0 {
        assert(s.drop_last() =~= Seq::<char>::empty());
        assert(body.take(0) =~= Seq::<char>::empty());
        assert(s.last() == q);
        assert(scan(s.drop_last()) == (ScanState {
            tokens: Seq::empty(),
            buf: Seq::empty(),
            quote: None,
        }));
    } else {
        lemma_scan_quoted(q, body, k - 1);
        assert(s.drop_last() =~= seq![q] + body.take(k - 1));
        assert(s.last() == body[k - 1]);
        assert(body[k - 1] != q);
        assert(body.take(k - 1).push(body[k - 1]) =~= body.take(k));
    }
}

/// A word quoted with either quote character becomes one token holding exactly
/// what lies between the delimiters: white space inside is kept, as is the
/// other quote character, and the delimiters are stripped. The word must not
/// begin or end with white space inside the quotes, since tokens are trimmed.
pub proof fn lemma_quoted_region_verbatim(q: char, body: Seq<char>)
    requires
        is_quote(q),
        is_clean(body),
        forall|i: int| 0 <= i < body.len() ==> #[trigger] body[i] != q,
    ensures
        tokenize(seq![q] + body + seq![q]) == seq![body],
{
    let s = seq![q] + body + seq![q];
    lemma_scan_quoted(q, body, body.len() as int);
    assert(body.take(body.len() as int) =~= body);
    assert(s.drop_last() =~= seq![q] + body.take(body.len() as int));
    lemma_trim_of_clean(body);
    assert(Seq::<Seq<char>>::empty().push(body) =~= seq![body]);
}

proof fn lemma_trim_start_shape(x: Seq<char>)
    ensures
        trim_start(x).len() > 0 ==> !is_white_space(trim_start(x)[0]),
    decreases x.len(),
{
    if x.len() > 0 && is_white_space(x[0]) {
        lemma_trim_start_shape(x.drop_first());
    }
}

proof fn lemma_trim_end_shape(y: Seq<char>)
    ensures
        trim_end(y).len() <= y.len(),
        trim_end(y) =~= y.take(trim_end(y).len() as int),
        trim_end(y).len() > 0 ==> !is_white_space(trim_end(y).last()),
    decreases y.len(),
{
    if y.len() > 0 && is_white_space(y.last()) {
        lemma_trim_end_shape(y.drop_last());
    }
}

proof fn lemma_trim_clean(x: Seq<char>)
    ensures
        trim(x).len() > 0 ==> is_clean(trim(x)),
{
    lemma_trim_start_shape(x);
    lemma_trim_end_shape(trim_start(x));
    let y = trim_start(x);
    if trim(x).len() > 0 {
        assert(trim(x)[0] == y[0]);
    }
}

proof fn lemma_scan_tokens_clean(s: Seq<char>)
    ensures
        forall|i: int| 0 <= i < scan(s).tokens.len() ==> is_clean(#[trigger] scan(s).tokens[i]),
    decreases s.len(),
{
    if s.len() > 0 {
        lemma_scan_tokens_clean(s.drop_last());
        lemma_trim_clean(scan(s.drop_last()).buf);
    }
}

/// Every token of every line is non-empty and has no white space at either
/// end.
pub proof fn lemma_tokens_are_clean(s: Seq<char>)
    ensures
        forall|i: int| 0 <= i < tokenize(s).len() ==> is_clean(#[trigger] tokenize(s)[i]),
{
    lemma_scan_tokens_clean(s);
    lemma_trim_clean(scan(s).buf);
}

proof fn lemma_scan_plain(t: Seq<char>)
    requires
        forall|i: int|
            0 <= i < t.len() ==> !is_quote(#[trigger] t[i]) && !is_termination(t[i]),
    ensures
        scan(t) == (ScanState { tokens: Seq::empty(), buf: t, quote: None }),
    decreases t.len(),
{
    if t.len() == 0 {
        assert(t =~= Seq::<char>::empty());
    } else {
        let p = t.drop_last();
        assert forall|i: int| 0 <= i < p.len() implies !is_quote(#[trigger] p[i])
            && !is_termination(p[i]) by {
            assert(p[i] == t[i]);
        }
        lemma_scan_plain(p);
        assert(!is_quote(t[t.len() - 1]) && !is_termination(t[t.len() - 1]));
        assert(p.push(t.last()) =~= t);
    }
}

/// Tokenizing again a token that holds no space, newline or quote character
/// gives back that token alone.
pub proof fn lemma_reparse_token(s: Seq<char>, i: int)
    requires
        0 <= i < tokenize(s).len(),
        forall|j: int|
            0 <= j < tokenize(s)[i].len() ==> !is_quote(#[trigger] tokenize(s)[i][j])
                && !is_termination(tokenize(s)[i][j]),
    ensures
        tokenize(tokenize(s)[i]) == seq![tokenize(s)[i]],
{
    let t = tokenize(s)[i];
    lemma_tokens_are_clean(s);
    lemma_scan_plain(t);
    lemma_trim_of_clean(t);
    assert(Seq::<Seq<char>>::empty().push(t) =~= seq![t]);
}

} // verus!
