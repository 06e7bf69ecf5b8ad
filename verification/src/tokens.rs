//! The structured token representation of the attribute DSL.
//!
//! Both the macro configuration list and the argument of a per-parameter
//! annotation arrive as a flat sequence of tokens. Grouping parentheses are
//! plain tokens here; the parsers give them meaning.

use vstd::prelude::*;
use vstd::string::StringExecFns;

verus! {

/// One token of the attribute DSL.
#[derive(Debug)]
pub enum Tok {
    /// An identifier or keyword, carrying its text.
    Ident(String),
    /// A literal (number, string, character), carrying its text verbatim.
    Lit(String),
    /// The path separator `::`.
    PathSep,
    /// A comma.
    Comma,
    /// An opening parenthesis.
    LParen,
    /// A closing parenthesis.
    RParen,
    /// Any other punctuation, carrying its text.
    Punct(String),
}

/// The mathematical model of a token: the same shape over character
/// sequences.
pub enum TokV {
    Ident(Seq<char>),
    Lit(Seq<char>),
    PathSep,
    Comma,
    LParen,
    RParen,
    Punct(Seq<char>),
}

impl DeepView for Tok {
    type V = TokV;

    open spec fn deep_view(&self) -> TokV {
        match self {
            Tok::Ident(s) => TokV::Ident(s@),
            Tok::Lit(s) => TokV::Lit(s@),
            Tok::PathSep => TokV::PathSep,
            Tok::Comma => TokV::Comma,
            Tok::LParen => TokV::LParen,
            Tok::RParen => TokV::RParen,
            Tok::Punct(s) => TokV::Punct(s@),
        }
    }
}

impl Clone for Tok {
    fn clone(&self) -> (r: Tok)
        ensures
            r.deep_view() == self.deep_view(),
    {
        match self {
            Tok::Ident(s) => Tok::Ident(s.clone()),
            Tok::Lit(s) => Tok::Lit(s.clone()),
            Tok::PathSep => Tok::PathSep,
            Tok::Comma => Tok::Comma,
            Tok::LParen => Tok::LParen,
            Tok::RParen => Tok::RParen,
            Tok::Punct(s) => Tok::Punct(s.clone()),
        }
    }
}

/// The text a single token contributes to rendered output.
pub open spec fn spec_tok_text(t: TokV) -> Seq<char> {
    match t {
        TokV::Ident(s) => s,
        TokV::Lit(s) => s,
        TokV::PathSep => "::"@,
        TokV::Comma => ", "@,
        TokV::LParen => "("@,
        TokV::RParen => ")"@,
        TokV::Punct(s) => s,
    }
}

/// Word-like tokens need a separating space when adjacent.
pub open spec fn is_word(t: TokV) -> bool {
    t is Ident || t is Lit
}

/// Canonical text of a token sequence: tokens in order, with a single space
/// between adjacent word-like tokens and none elsewhere.
pub open spec fn spec_render_toks(ts: Seq<TokV>) -> Seq<char>
    decreases ts.len(),
{
    if ts.len() == 0 {
        Seq::empty()
    } else {
        spec_render_toks(ts.drop_last()) + (if ts.len() >= 2 && is_word(ts[ts.len() - 2])
            && is_word(ts.last()) {
            " "@
        } else {
            Seq::<char>::empty()
        }) + spec_tok_text(ts.last())
    }
}

fn is_word_exec(t: &Tok) -> (r: bool)
    ensures
        r == is_word(t.deep_view()),
{
    match t {
        Tok::Ident(_) => true,
        Tok::Lit(_) => true,
        _ => false,
    }
}

/// Appends the text of one token to `out`.
fn push_tok_text(out: &mut String, t: &Tok)
    ensures
        final(out)@ == old(out)@ + spec_tok_text(t.deep_view()),
{
    match t {
        Tok::Ident(s) => out.append(s.as_str()),
        Tok::Lit(s) => out.append(s.as_str()),
        Tok::PathSep => out.append("::"),
        Tok::Comma => out.append(", "),
        Tok::LParen => out.append("("),
        Tok::RParen => out.append(")"),
        Tok::Punct(s) => out.append(s.as_str()),
    }
}

/// The element-wise model of a sequence of modeled values.
pub open spec fn deep_of<T: DeepView>(s: Seq<T>) -> Seq<T::V> {
    Seq::new(s.len(), |i: int| s[i].deep_view())
}

/// Pushing commutes with taking the element-wise model.
pub proof fn lemma_deep_push<T: DeepView>(s: Seq<T>, x: T)
    ensures
        deep_of(s.push(x)) =~= deep_of(s).push(x.deep_view()),
{
    assert forall|j: int| 0 <= j < s.len() + 1 implies deep_of(s.push(x))[j] == deep_of(s).push(
        x.deep_view(),
    )[j] by {
        if j < s.len() {
            assert(s.push(x)[j] == s[j]);
        } else {
            assert(s.push(x)[j] == x);
        }
    }
}

/// Pushes a value and tracks the vector's model.
pub fn push_deep<T: DeepView>(v: &mut Vec<T>, x: T)
    ensures
        final(v).deep_view() =~= old(v).deep_view().push(x.deep_view()),
{
    let ghost prev = v@;
    let ghost before = v.deep_view();
    v.push(x);
    proof {
        assert(before =~= deep_of(prev));
        assert(v.deep_view() =~= deep_of(v@));
        lemma_deep_push(prev, x);
    }
}

/// Compares a string against a keyword.
pub fn str_eq(a: &String, b: &str) -> (r: bool)
    ensures
        r == (a@ == b@),
{
    a.eq(&String::from_str(b))
}

/// Copies the tokens of `ts` between `from` (inclusive) and `to`
/// (exclusive).
pub fn clone_toks_range(ts: &Vec<Tok>, from: usize, to: usize) -> (r: Vec<Tok>)
    requires
        from <= to <= ts@.len(),
    ensures
        r.deep_view() == ts.deep_view().subrange(from as int, to as int),
{
    let mut out: Vec<Tok> = Vec::new();
    let mut i: usize = from;
    while i < to
        invariant
            from <= i <= to <= ts@.len(),
            out.deep_view() =~= ts.deep_view().subrange(from as int, i as int),
        decreases to - i,
    {
        let ghost prev = out@;
        let ghost before = out.deep_view();
        let c = ts[i].clone();
        proof {
            assert(c.deep_view() == ts.deep_view()[i as int]);
            assert(out.deep_view().len() == out@.len());
            assert(prev.len() == i - from);
        }
        out.push(c);
        proof {
            let tv = ts.deep_view();
            assert(out@ == prev.push(c));
            assert forall|j: int| 0 <= j < i + 1 - from implies out.deep_view()[j] == tv.subrange(
                from as int,
                i + 1,
            )[j] by {
                if j < i - from {
                    assert(out@[j] == prev[j]);
                    assert(before[j] == prev[j].deep_view());
                    assert(before[j] == tv[from + j]);
                } else {
                    assert(out@[j] == c);
                }
            }
            assert(out.deep_view() =~= tv.subrange(from as int, i + 1));
        }
        i = i + 1;
    }
    out
}

/// Copies a token vector element by element.
pub fn clone_toks(ts: &Vec<Tok>) -> (r: Vec<Tok>)
    ensures
        r.deep_view() == ts.deep_view(),
{
    let mut out: Vec<Tok> = Vec::new();
    let mut i: usize = 0;
    while i < ts.len()
        invariant
            i <= ts.len(),
            out.deep_view() =~= ts.deep_view().take(i as int),
        decreases ts.len() - i,
    {
        let ghost prev = out@;
        let ghost before = out.deep_view();
        let c = ts[i].clone();
        proof {
            assert(c.deep_view() == ts.deep_view()[i as int]);
            assert(out.deep_view().len() == ts.deep_view().take(i as int).len());
            assert(ts.deep_view().take(i as int).len() == i);
            assert(out.deep_view().len() == out@.len());
            assert(prev.len() == i);
        }
        out.push(c);
        proof {
            let tv = ts.deep_view();
            assert(out@ == prev.push(c));
            assert forall|j: int| 0 <= j < i + 1 implies out.deep_view()[j] == tv.take(i + 1)[j] by {
                if j < i {
                    assert(out@[j] == prev[j]);
                    assert(before[j] == prev[j].deep_view());
                    assert(before[j] == tv[j]);
                } else {
                    assert(out@[j] == c);
                }
            }
            assert(out.deep_view() =~= tv.take(i + 1));
        }
        i = i + 1;
    }
    proof {
        assert(ts.deep_view().take(ts.len() as int) =~= ts.deep_view());
    }
    out
}

/// Renders a token sequence to its canonical text.
pub fn render_toks(ts: &Vec<Tok>) -> (r: String)
    ensures
        r@ == spec_render_toks(ts.deep_view()),
{
    let mut out = String::new();
    let mut i: usize = 0;
    while i < ts.len()
        invariant
            i <= ts.len(),
            out@ == spec_render_toks(ts.deep_view().take(i as int)),
        decreases ts.len() - i,
    {
        if i > 0 && is_word_exec(&ts[i - 1]) && is_word_exec(&ts[i]) {
            out.append(" ");
        }
        push_tok_text(&mut out, &ts[i]);
        proof {
            let tv = ts.deep_view();
            assert(tv.take(i + 1).drop_last() =~= tv.take(i as int));
            assert(tv.take(i + 1).last() == tv[i as int]);
        }
        i = i + 1;
    }
    proof {
        assert(ts.deep_view().take(ts.len() as int) =~= ts.deep_view());
    }
    out
}

} // verus!
