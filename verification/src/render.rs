//! Executable rendering: each node kind appends its canonical form, as
//! defined by the `canon` spec functions in [`crate::ast`], to a
//! caller-supplied `String` sink.

use crate::ast::{
    template_canon, Alignment, Argument, Count, Flags, FormatSpec, ParseError, Piece, Position,
};
use crate::num::push_decimal;
use vstd::prelude::*;
use vstd::seq_lib::lemma_concat_associative;

verus! {

/// Relies on `String::push`: appends the given character to the end of
/// the string.
#[verifier::external_body]
fn push_char(out: &mut String, c: char)
    ensures
        final(out)@ == old(out)@ + seq![c],
{
    out.push(c);
}

impl Alignment {
    /// Appends the canonical form of this alignment to `out`.
    pub fn fmt(&self, out: &mut String)
        ensures
            final(out)@ == old(out)@ + self.canon(),
    {
        match self {
            Alignment::Left => out.append("<"),
            Alignment::Right => out.append(">"),
            Alignment::Center => out.append("^"),
            Alignment::Unknown => (),
        }
        proof {
            reveal_strlit("<");
            reveal_strlit(">");
            reveal_strlit("^");
            assert(out@ =~= old(out)@ + self.canon());
        }
    }

    /// Whether this alignment is the unspecified one.
    pub fn is_unknown(&self) -> (r: bool)
        ensures
            r == (self is Unknown),
    {
        match self {
            Alignment::Unknown => true,
            _ => false,
        }
    }
}

impl Count {
    /// Appends the canonical form of this count to `out`.
    pub fn fmt(&self, out: &mut String)
        ensures
            final(out)@ == old(out)@ + self.canon(),
    {
        match self {
            Count::Fixed(n) => push_decimal(*n, out),
            Count::NamedRef(name, _) => {
                out.append(name.as_str());
                out.append("$");
            },
            Count::ArgRef(i) => {
                push_decimal(*i, out);
                out.append("$");
            },
            Count::Star(_) => out.append("*"),
            Count::Implied => (),
        }
        proof {
            reveal_strlit("$");
            reveal_strlit("*");
            assert(out@ =~= old(out)@ + self.canon());
        }
    }

    /// Whether this count is the absent one.
    pub fn is_implied(&self) -> (r: bool)
        ensures
            r == (self is Implied),
    {
        match self {
            Count::Implied => true,
            _ => false,
        }
    }
}

impl Position {
    /// Appends the canonical form of this position to `out`.
    pub fn fmt(&self, out: &mut String)
        ensures
            final(out)@ == old(out)@ + self.canon(),
    {
        match self {
            Position::Implicit(_) => (),
            Position::Explicit(i) => push_decimal(*i, out),
            Position::Named(name) => out.append(name.as_str()),
        }
        proof {
            assert(out@ =~= old(out)@ + self.canon());
        }
    }
}

impl Flags {
    /// Whether no modifier is set.
    pub fn is_clear(&self) -> (r: bool)
        ensures
            r == self.none_set(),
    {
        !self.sign_plus && !self.sign_minus && !self.alternate && !self.sign_aware_zero_pad
            && !self.debug_lower_hex && !self.debug_upper_hex
    }

    /// Appends the sign marker: `+` when sign-plus is set, else `-` when
    /// sign-minus is set.
    fn fmt_sign(&self, out: &mut String)
        ensures
            final(out)@ == old(out)@ + self.sign_canon(),
    {
        if self.sign_plus {
            out.append("+");
        } else if self.sign_minus {
            out.append("-");
        }
        proof {
            reveal_strlit("+");
            reveal_strlit("-");
            assert(out@ =~= old(out)@ + self.sign_canon());
        }
    }

    /// Appends `#` when the alternate-form modifier is set.
    fn fmt_alternate(&self, out: &mut String)
        ensures
            final(out)@ == old(out)@ + self.alternate_canon(),
    {
        if self.alternate {
            out.append("#");
        }
        proof {
            reveal_strlit("#");
            assert(out@ =~= old(out)@ + self.alternate_canon());
        }
    }

    /// Appends `0` when the sign-aware-zero-pad modifier is set.
    fn fmt_zero_pad(&self, out: &mut String)
        ensures
            final(out)@ == old(out)@ + self.zero_pad_canon(),
    {
        if self.sign_aware_zero_pad {
            out.append("0");
        }
        proof {
            reveal_strlit("0");
            assert(out@ =~= old(out)@ + self.zero_pad_canon());
        }
    }

    /// Appends the debug-hex marker: `x` when the lowercase modifier is
    /// set, else `X` when the uppercase one is set.
    fn fmt_debug_hex(&self, out: &mut String)
        ensures
            final(out)@ == old(out)@ + self.debug_hex_canon(),
    {
        if self.debug_lower_hex {
            out.append("x");
        } else if self.debug_upper_hex {
            out.append("X");
        }
        proof {
            reveal_strlit("x");
            reveal_strlit("X");
            assert(out@ =~= old(out)@ + self.debug_hex_canon());
        }
    }
}

impl FormatSpec {
    /// Whether no field of this spec is present; an empty spec renders
    /// nothing at all.
    pub fn is_empty(&self) -> (r: bool)
        ensures
            r == self.is_empty_spec(),
    {
        self.fill.is_none() && self.align.is_unknown() && self.flags.is_clear()
            && self.width.is_implied() && self.precision.is_implied()
            && self.ty.as_str().is_empty()
    }

    /// Appends the fill character, when one is set.
    fn fmt_fill(&self, out: &mut String)
        ensures
            final(out)@ == old(out)@ + self.fill_canon(),
    {
        if let Some(fill) = self.fill {
            push_char(out, fill);
        }
        proof {
            assert(out@ =~= old(out)@ + self.fill_canon());
        }
    }

    /// Appends `.` and the precision count, when the precision is present.
    fn fmt_precision(&self, out: &mut String)
        ensures
            final(out)@ == old(out)@ + self.precision_canon(),
    {
        if !self.precision.is_implied() {
            out.append(".");
            self.precision.fmt(out);
        }
        proof {
            reveal_strlit(".");
            assert(out@ =~= old(out)@ + self.precision_canon());
        }
    }

    /// Appends the canonical form of this spec to `out`: nothing when the
    /// spec is empty, else `:` followed by each present field in order.
    pub fn fmt(&self, out: &mut String)
        ensures
            final(out)@ == old(out)@ + self.canon(),
    {
        if self.is_empty() {
            return ;
        }
        out.append(":");
        proof {
            reveal_strlit(":");
            assert(out@ =~= old(out)@ + seq![':']);
        }
        let ghost d1: Seq<char> = seq![':'];
        self.fmt_fill(out);
        proof {
            lemma_concat_associative(old(out)@, d1, self.fill_canon());
        }
        let ghost d2: Seq<char> = d1 + self.fill_canon();
        self.align.fmt(out);
        proof {
            lemma_concat_associative(old(out)@, d2, self.align.canon());
        }
        let ghost d3: Seq<char> = d2 + self.align.canon();
        self.flags.fmt_sign(out);
        proof {
            lemma_concat_associative(old(out)@, d3, self.flags.sign_canon());
        }
        let ghost d4: Seq<char> = d3 + self.flags.sign_canon();
        self.flags.fmt_alternate(out);
        proof {
            lemma_concat_associative(old(out)@, d4, self.flags.alternate_canon());
        }
        let ghost d5: Seq<char> = d4 + self.flags.alternate_canon();
        self.flags.fmt_zero_pad(out);
        proof {
            lemma_concat_associative(old(out)@, d5, self.flags.zero_pad_canon());
        }
        let ghost d6: Seq<char> = d5 + self.flags.zero_pad_canon();
        self.width.fmt(out);
        proof {
            lemma_concat_associative(old(out)@, d6, self.width.canon());
        }
        let ghost d7: Seq<char> = d6 + self.width.canon();
        self.fmt_precision(out);
        proof {
            lemma_concat_associative(old(out)@, d7, self.precision_canon());
        }
        let ghost d8: Seq<char> = d7 + self.precision_canon();
        self.flags.fmt_debug_hex(out);
        proof {
            lemma_concat_associative(old(out)@, d8, self.flags.debug_hex_canon());
        }
        let ghost d9: Seq<char> = d8 + self.flags.debug_hex_canon();
        out.append(self.ty.as_str());
        proof {
            lemma_concat_associative(old(out)@, d9, self.ty@);
            assert(out@ == old(out)@ + self.canon());
        }
    }
}

impl Argument {
    /// Appends the canonical form of this placeholder to `out`: `{`, the
    /// position, the format spec, `}`.
    pub fn fmt(&self, out: &mut String)
        ensures
            final(out)@ == old(out)@ + self.canon(),
    {
        out.append("{");
        self.position.fmt(out);
        self.format.fmt(out);
        out.append("}");
        proof {
            reveal_strlit("{");
            reveal_strlit("}");
            assert(out@ =~= old(out)@ + self.canon());
        }
    }
}

impl Piece {
    /// Appends the canonical form of this piece to `out`: literal text
    /// with a leading brace doubled, or the placeholder's rendering.
    pub fn fmt(&self, out: &mut String)
        ensures
            final(out)@ == old(out)@ + self.canon(),
    {
        match self {
            Piece::Literal(text) => {
                let t = text.as_str();
                if !t.is_empty() {
                    let c = t.get_char(0);
                    if c == '{' {
                        out.append("{");
                    } else if c == '}' {
                        out.append("}");
                    }
                }
                out.append(text.as_str());
                proof {
                    reveal_strlit("{");
                    reveal_strlit("}");
                    assert(out@ =~= old(out)@ + self.canon());
                }
            },
            Piece::Placeholder(arg) => arg.fmt(out),
        }
    }

    /// The canonical form of this piece as a fresh string.
    pub fn rendered(&self) -> (r: String)
        ensures
            r@ == self.canon(),
    {
        let mut out = String::new();
        self.fmt(&mut out);
        proof {
            assert(out@ =~= self.canon());
        }
        out
    }
}

impl ParseError {
    /// Appends the canonical form of this diagnostic to `out`: the start
    /// offset, `: `, then the description.
    pub fn fmt(&self, out: &mut String)
        ensures
            final(out)@ == old(out)@ + self.canon(),
    {
        push_decimal(self.span.start, out);
        out.append(": ");
        out.append(self.description.as_str());
        proof {
            reveal_strlit(": ");
            assert(out@ =~= old(out)@ + self.canon());
        }
    }

    /// The rendered message as a fresh string, for callers that surface
    /// the diagnostic.
    pub fn message(&self) -> (r: String)
        ensures
            r@ == self.canon(),
    {
        let mut out = String::new();
        self.fmt(&mut out);
        proof {
            assert(out@ =~= self.canon());
        }
        out
    }
}

/// Appends the canonical form of a whole template, piece by piece in
/// order, to `out`.
pub fn fmt_template(pieces: &Vec<Piece>, out: &mut String)
    ensures
        final(out)@ == old(out)@ + template_canon(pieces@),
{
    let n: usize = pieces.len();
    let mut i: usize = 0;
    while i < n
        invariant
            n == pieces@.len(),
            i <= n,
            out@ == old(out)@ + template_canon(pieces@.take(i as int)),
        decreases n - i,
    {
        let ghost done: Seq<char> = template_canon(pieces@.take(i as int));
        pieces[i].fmt(out);
        proof {
            lemma_concat_associative(old(out)@, done, pieces@[i as int].canon());
            assert(pieces@.take(i + 1 as int).drop_last() =~= pieces@.take(i as int));
            assert(pieces@.take(i + 1 as int).last() == pieces@[i as int]);
        }
        i = i + 1;
    }
    proof {
        assert(pieces@.take(n as int) =~= pieces@);
    }
}

/// The canonical form of a whole template as a fresh string.
pub fn render_template(pieces: &Vec<Piece>) -> (r: String)
    ensures
        r@ == template_canon(pieces@),
{
    let mut out = String::new();
    fmt_template(pieces, &mut out);
    proof {
        assert(out@ =~= template_canon(pieces@));
    }
    out
}

} // verus!
