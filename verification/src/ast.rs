//! The abstract syntax of a format template, and the canonical textual
//! form of each node as a sequence of characters.
//!
//! Values of these types are built by a parser elsewhere; this crate only
//! reads them. Each node's `canon` spec function is the single definition
//! of what its rendering must produce.

use crate::num::decimal;
use vstd::prelude::*;

verus! {

/// One piece of a template: literal text between placeholders, or one
/// `{...}` placeholder.
pub enum Piece {
    /// Literal text. A raw `{` or `}` may occur only as the first
    /// character, where it stands for an escaped brace of the source
    /// template and is doubled on render.
    Literal(String),
    /// An argument placeholder.
    Placeholder(Argument),
}

/// One placeholder: which argument it selects and how to format it.
pub struct Argument {
    pub position: Position,
    pub format: FormatSpec,
}

/// How a placeholder selects its argument.
pub enum Position {
    /// No position was written; the payload is the implicit next index.
    /// Renders nothing.
    Implicit(usize),
    /// An explicit numeric index.
    Explicit(usize),
    /// A named reference.
    Named(String),
}

/// The six boolean format modifiers of a spec.
pub struct Flags {
    pub sign_plus: bool,
    pub sign_minus: bool,
    pub alternate: bool,
    pub sign_aware_zero_pad: bool,
    pub debug_lower_hex: bool,
    pub debug_upper_hex: bool,
}

/// Alignment of the formatted value inside its width.
pub enum Alignment {
    Left,
    Right,
    Center,
    /// Unspecified; renders nothing.
    Unknown,
}

/// A width or precision value.
pub enum Count {
    /// A literal number.
    Fixed(usize),
    /// A named runtime reference; the resolved index is not part of the
    /// canonical form.
    NamedRef(String, usize),
    /// A numeric runtime reference.
    ArgRef(usize),
    /// A count taken from the next runtime argument; renders as `*`.
    Star(usize),
    /// Absent; renders nothing.
    Implied,
}

/// The `:`-introduced format spec of a placeholder.
pub struct FormatSpec {
    /// The fill character, written just before the alignment.
    pub fill: Option<char>,
    pub align: Alignment,
    pub flags: Flags,
    pub width: Count,
    pub precision: Count,
    /// The trailing format-trait selector, rendered verbatim and last.
    pub ty: String,
}

/// A character range in the source template.
pub struct Span {
    pub start: usize,
    pub end: usize,
}

/// A parser diagnostic; built elsewhere, only rendered here.
pub struct ParseError {
    pub span: Span,
    pub description: String,
}

impl Flags {
    /// No modifier is set.
    pub open spec fn none_set(self) -> bool {
        &&& !self.sign_plus
        &&& !self.sign_minus
        &&& !self.alternate
        &&& !self.sign_aware_zero_pad
        &&& !self.debug_lower_hex
        &&& !self.debug_upper_hex
    }

    /// The sign marker: `+` when sign-plus is set (whatever sign-minus
    /// holds), else `-` when sign-minus is set, else nothing.
    pub open spec fn sign_canon(self) -> Seq<char> {
        if self.sign_plus {
            seq!['+']
        } else if self.sign_minus {
            seq!['-']
        } else {
            Seq::empty()
        }
    }

    /// `#` when the alternate-form modifier is set.
    pub open spec fn alternate_canon(self) -> Seq<char> {
        if self.alternate {
            seq!['#']
        } else {
            Seq::empty()
        }
    }

    /// `0` when the sign-aware-zero-pad modifier is set.
    pub open spec fn zero_pad_canon(self) -> Seq<char> {
        if self.sign_aware_zero_pad {
            seq!['0']
        } else {
            Seq::empty()
        }
    }

    /// The debug-hex marker: `x` when the lowercase modifier is set
    /// (whatever the uppercase one holds), else `X` when the uppercase
    /// one is set, else nothing.
    pub open spec fn debug_hex_canon(self) -> Seq<char> {
        if self.debug_lower_hex {
            seq!['x']
        } else if self.debug_upper_hex {
            seq!['X']
        } else {
            Seq::empty()
        }
    }
}

impl Alignment {
    /// `<`, `>` or `^`; nothing for `Unknown`.
    pub open spec fn canon(self) -> Seq<char> {
        match self {
            Alignment::Left => seq!['<'],
            Alignment::Right => seq!['>'],
            Alignment::Center => seq!['^'],
            Alignment::Unknown => Seq::empty(),
        }
    }
}

impl Count {
    /// The canonical form of a count: a numeral, a `$`-suffixed
    /// reference, `*`, or nothing when implied.
    pub open spec fn canon(self) -> Seq<char> {
        match self {
            Count::Fixed(n) => decimal(n as nat),
            Count::NamedRef(name, _) => name@ + seq!['$'],
            Count::ArgRef(i) => decimal(i as nat) + seq!['$'],
            Count::Star(_) => seq!['*'],
            Count::Implied => Seq::empty(),
        }
    }
}

impl Position {
    /// The canonical form of a position: nothing when implicit, a decimal
    /// numeral, or the name verbatim.
    pub open spec fn canon(self) -> Seq<char> {
        match self {
            Position::Implicit(_) => Seq::empty(),
            Position::Explicit(i) => decimal(i as nat),
            Position::Named(name) => name@,
        }
    }
}

impl FormatSpec {
    /// A spec with no field present at all; such a spec renders nothing,
    /// not even the leading `:`.
    pub open spec fn is_empty_spec(self) -> bool {
        &&& self.fill is None
        &&& self.align is Unknown
        &&& self.flags.none_set()
        &&& self.width is Implied
        &&& self.precision is Implied
        &&& self.ty@.len() == 0
    }

    /// The fill character, when one is set.
    pub open spec fn fill_canon(self) -> Seq<char> {
        match self.fill {
            Some(c) => seq![c],
            None => Seq::empty(),
        }
    }

    /// `.` followed by the precision count, when the precision is present.
    pub open spec fn precision_canon(self) -> Seq<char> {
        if self.precision is Implied {
            Seq::empty()
        } else {
            seq!['.'] + self.precision.canon()
        }
    }

    /// The canonical form of a whole spec: nothing when empty, else `:`
    /// followed by each present field in the fixed order fill, align,
    /// sign, `#`, `0`, width, `.`precision, debug-hex, type.
    pub open spec fn canon(self) -> Seq<char> {
        if self.is_empty_spec() {
            Seq::empty()
        } else {
            seq![':'] + self.fill_canon() + self.align.canon() + self.flags.sign_canon()
                + self.flags.alternate_canon() + self.flags.zero_pad_canon() + self.width.canon()
                + self.precision_canon() + self.flags.debug_hex_canon() + self.ty@
        }
    }
}

impl Argument {
    /// `{`, the position, the format spec, `}`.
    pub open spec fn canon(self) -> Seq<char> {
        seq!['{'] + self.position.canon() + self.format.canon() + seq!['}']
    }
}

impl Piece {
    /// Literal text with a leading brace doubled and the rest verbatim;
    /// a placeholder as its argument renders.
    pub open spec fn canon(self) -> Seq<char> {
        match self {
            Piece::Literal(text) => {
                if text@.len() > 0 && (text@[0] == '{' || text@[0] == '}') {
                    seq![text@[0]] + text@
                } else {
                    text@
                }
            },
            Piece::Placeholder(arg) => arg.canon(),
        }
    }
}

/// The canonical form of a whole template: its pieces in order.
pub open spec fn template_canon(pieces: Seq<Piece>) -> Seq<char>
    decreases pieces.len(),
{
    if pieces.len() == 0 {
        Seq::empty()
    } else {
        template_canon(pieces.drop_last()) + pieces.last().canon()
    }
}

impl ParseError {
    /// The start offset as a decimal numeral, `: `, then the description
    /// verbatim.
    pub open spec fn canon(self) -> Seq<char> {
        decimal(self.span.start as nat) + seq![':', ' '] + self.description@
    }
}

} // verus!
