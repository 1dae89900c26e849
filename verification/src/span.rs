//! Source spans: a pair of token indices into the scanner's token array,
//! carried by every AST node and used only to render diagnostics.
//!
//! `span_render` is the mathematical renderer: the snippet a span
//! denotes (line number, a bar, the offending lexemes, and a carat line
//! ending in `--- Here`). `SpanParser` is proved to produce exactly that
//! text.
use vstd::prelude::*;
use crate::tokens::{Token, TokenModel, tokens_model};

verus! {

/// A half-open-free, inclusive range `[first, last]` of token indices.
#[derive(Clone, Copy, PartialEq, Eq, Structural, Debug)]
pub struct Span {
    pub first: usize,
    pub last: usize,
}

impl Span {
    pub fn new(first: usize) -> (s: Span)
        ensures
            s.first == first,
            s.last == 0,
    {
        Span { first, last: 0 }
    }

    pub fn set_first_and_last(&mut self, first: usize, last: usize)
        ensures
            final(self).first == first,
            final(self).last == last,
    {
        self.first = first;
        self.last = last;
    }

    pub fn set_first(&mut self, first: usize)
        ensures
            final(self).first == first,
            final(self).last == old(self).last,
    {
        self.first = first;
    }

    pub fn set_last(&mut self, last: usize)
        ensures
            final(self).first == old(self).first,
            final(self).last == last,
    {
        self.last = last;
    }

    pub fn done(&self) -> (s: Span)
        ensures
            s == *self,
    {
        Span { first: self.first, last: self.last }
    }

    pub fn first(&self) -> (r: usize)
        ensures
            r == self.first,
    {
        self.first
    }

    pub fn last(&self) -> (r: usize)
        ensures
            r == self.last,
    {
        self.last
    }
}

/// The decimal digit character of `d` (which must be below ten).
pub open spec fn digit_char(d: nat) -> char {
    if d == 0 {
        '0'
    } else if d == 1 {
        '1'
    } else if d == 2 {
        '2'
    } else if d == 3 {
        '3'
    } else if d == 4 {
        '4'
    } else if d == 5 {
        '5'
    } else if d == 6 {
        '6'
    } else if d == 7 {
        '7'
    } else if d == 8 {
        '8'
    } else {
        '9'
    }
}

/// The decimal rendering of a natural number.
pub open spec fn dec_str(n: nat) -> Seq<char>
    decreases n,
{
    if n < 10 {
        seq![digit_char(n)]
    } else {
        dec_str(n / 10) + seq![digit_char(n % 10)]
    }
}

/// The lexemes of the tokens in `[i, end)`, joined by single spaces.
pub open spec fn joined_lexemes(toks: Seq<TokenModel>, i: int, end: int) -> Seq<char>
    decreases end - i,
{
    if 0 <= i < end && i < toks.len() {
        if i + 1 < end && i + 1 < toks.len() {
            toks[i].lexeme + seq![' '] + joined_lexemes(toks, i + 1, end)
        } else {
            toks[i].lexeme
        }
    } else {
        Seq::empty()
    }
}

/// A run of `n` carat marks.
pub open spec fn carats(n: nat) -> Seq<char>
    decreases n,
{
    if n == 0 {
        Seq::empty()
    } else {
        carats((n - 1) as nat) + seq!['^']
    }
}

/// The diagnostic snippet a span denotes: the offending tokens' line
/// number and a bar, their lexemes, and a carat line ending in
/// `--- Here`. A span outside the token list renders its scaffold with no
/// lexemes.
pub open spec fn span_render(span: Span, toks: Seq<TokenModel>) -> Seq<char> {
    let snippet = joined_lexemes(toks, span.first as int, span.last as int);
    let line = crate::parser::tok_at(toks, span.first as int).line;
    dec_str(line) + "| "@ + snippet + "\n"@ + carats(snippet.len()) + " --- Here"@
}

/// Renders source spans into diagnostic snippets.
pub struct SpanParser;

impl SpanParser {
    /// The decimal rendering of a number, one digit per division by ten.
    fn dec_string(n: usize) -> (r: String)
        ensures
            r@ == dec_str(n as nat),
        decreases n,
    {
        let d = n % 10;
        let c: char = match d {
            0 => '0',
            1 => '1',
            2 => '2',
            3 => '3',
            4 => '4',
            5 => '5',
            6 => '6',
            7 => '7',
            8 => '8',
            _ => '9',
        };
        proof {
            assert(c == digit_char((n % 10) as nat));
        }
        if n < 10 {
            let mut chars: Vec<char> = Vec::new();
            chars.push(c);
            let r = crate::text::string_of_chars(&chars);
            proof {
                assert(chars@ =~= seq![digit_char(n as nat)]);
            }
            r
        } else {
            let mut r = Self::dec_string(n / 10);
            let mut tail: Vec<char> = Vec::new();
            tail.push(c);
            let t = crate::text::string_of_chars(&tail);
            r.append(t.as_str());
            proof {
                assert(tail@ =~= seq![digit_char((n % 10) as nat)]);
            }
            r
        }
    }

    /// Renders the snippet `span_render` describes for the span against
    /// the token list.
    pub fn parse(span: Span, tokens: &Vec<Token>) -> (r: String)
        ensures
            r@ == span_render(span, tokens_model(tokens@)),
    {
        let ghost toks = tokens_model(tokens@);
        let first = span.first();
        let last = span.last();
        let mut snippet = String::new();
        let mut i = first;
        while i < last && i < tokens.len()
            invariant
                first <= i,
                toks == tokens_model(tokens@),
                joined_lexemes(toks, first as int, last as int) =~= snippet@ + joined_lexemes(
                    toks,
                    i as int,
                    last as int,
                ),
            decreases last - i,
        {
            snippet.append(tokens[i].lexeme.as_str());
            if i + 1 < last && i + 1 < tokens.len() {
                snippet.append(" ");
            }
            proof {
                reveal_strlit(" ");
                assert(toks.len() == tokens@.len());
                assert(" "@ =~= seq![' ']);
                assert(joined_lexemes(toks, first as int, last as int) =~= snippet@
                    + joined_lexemes(toks, i + 1, last as int));
            }
            i = i + 1;
        }
        proof {
            assert(joined_lexemes(toks, i as int, last as int) =~= Seq::<char>::empty());
            assert(snippet@ =~= joined_lexemes(toks, first as int, last as int));
        }
        let line = if first < tokens.len() {
            tokens[first].line
        } else {
            1
        };
        let mut out = Self::dec_string(line);
        out.append("| ");
        out.append(snippet.as_str());
        out.append("\n");
        let mut k: usize = 0;
        let width = snippet.as_str().unicode_len();
        while k < width
            invariant
                k <= width,
                width == snippet@.len(),
                out@ =~= dec_str(line as nat) + "| "@ + snippet@ + "\n"@ + carats(k as nat),
            decreases width - k,
        {
            out.append("^");
            proof {
                reveal_strlit("^");
                assert("^"@ =~= seq!['^']);
                assert(out@ =~= dec_str(line as nat) + "| "@ + snippet@ + "\n"@ + carats(
                    (k + 1) as nat,
                ));
            }
            k = k + 1;
        }
        out.append(" --- Here");
        proof {
            assert(out@ =~= span_render(span, toks));
        }
        out
    }
}

} // verus!
