//! The properties the canonical form obeys, stated and proved over the
//! `canon` spec functions of [`crate::ast`].

use crate::ast::{Argument, Flags, FormatSpec, Piece};
use vstd::prelude::*;

verus! {

/// Empty-spec suppression: a placeholder with no written position and a
/// format spec with no field present renders as exactly `{}` — no `:`
/// appears.
pub proof fn lemma_empty_spec_suppression(arg: Argument)
    requires
        arg.position is Implicit,
        arg.format.is_empty_spec(),
    ensures
        Piece::Placeholder(arg).canon() == "{}"@,
{
    reveal_strlit("{}");
    assert(Piece::Placeholder(arg).canon() =~= "{}"@);
}

/// Brace escaping: a literal piece whose text begins with `{` or `}`
/// renders with that first character doubled and the remainder unchanged;
/// a literal piece with no leading brace renders as its text verbatim.
pub proof fn lemma_brace_escaping(text: String)
    ensures
        text@.len() > 0 && (text@[0] == '{' || text@[0] == '}') ==> Piece::Literal(text).canon()
            == seq![text@[0], text@[0]] + text@.skip(1),
        !(text@.len() > 0 && (text@[0] == '{' || text@[0] == '}')) ==> Piece::Literal(text).canon()
            == text@,
{
    if text@.len() > 0 && (text@[0] == '{' || text@[0] == '}') {
        assert(Piece::Literal(text).canon() =~= seq![text@[0], text@[0]] + text@.skip(1));
    }
}

/// Flag priority: when both sign bits are set, the sign marker is `+`
/// alone — never `-`, never both — and the whole spec renders exactly as
/// it would with the sign-minus bit clear.
pub proof fn lemma_sign_plus_priority(fs: FormatSpec)
    requires
        fs.flags.sign_plus,
        fs.flags.sign_minus,
    ensures
        fs.flags.sign_canon() == seq!['+'],
        fs.canon() == (FormatSpec { flags: Flags { sign_minus: false, ..fs.flags }, ..fs }).canon(),
{
}

/// Debug-hex priority: when both debug-hex bits are set, the marker is
/// `x` alone, and the whole spec renders exactly as it would with the
/// uppercase bit clear.
pub proof fn lemma_debug_hex_priority(fs: FormatSpec)
    requires
        fs.flags.debug_lower_hex,
        fs.flags.debug_upper_hex,
    ensures
        fs.flags.debug_hex_canon() == seq!['x'],
        fs.canon() == (FormatSpec {
            flags: Flags { debug_upper_hex: false, ..fs.flags },
            ..fs
        }).canon(),
{
}

} // verus!
