use fmt_render::ast::{
    Alignment, Argument, Count, Flags, FormatSpec, ParseError, Piece, Position, Span,
};
use fmt_render::render::{fmt_template, render_template};

fn clear_flags() -> Flags {
    Flags {
        sign_plus: false,
        sign_minus: false,
        alternate: false,
        sign_aware_zero_pad: false,
        debug_lower_hex: false,
        debug_upper_hex: false,
    }
}

fn empty_spec() -> FormatSpec {
    FormatSpec {
        fill: None,
        align: Alignment::Unknown,
        flags: clear_flags(),
        width: Count::Implied,
        precision: Count::Implied,
        ty: String::new(),
    }
}

#[test]
fn explicit_position_empty_spec() {
    let piece = Piece::Placeholder(Argument {
        position: Position::Explicit(0),
        format: empty_spec(),
    });
    assert_eq!(piece.rendered(), "{0}");
}

#[test]
fn right_aligned_width_and_precision() {
    let piece = Piece::Placeholder(Argument {
        position: Position::Implicit(0),
        format: FormatSpec {
            align: Alignment::Right,
            width: Count::Fixed(8),
            precision: Count::Fixed(2),
            ..empty_spec()
        },
    });
    assert_eq!(piece.rendered(), "{:>8.2}");
}

#[test]
fn literal_leading_open_brace_is_doubled() {
    let piece = Piece::Literal(String::from("{escaped"));
    assert_eq!(piece.rendered(), "{{escaped");
}

#[test]
fn literal_leading_close_brace_is_doubled() {
    let piece = Piece::Literal(String::from("}tail"));
    assert_eq!(piece.rendered(), "}}tail");
}

#[test]
fn literal_without_brace_is_unchanged() {
    let piece = Piece::Literal(String::from("plain text"));
    assert_eq!(piece.rendered(), "plain text");
}

#[test]
fn empty_literal_renders_nothing() {
    let piece = Piece::Literal(String::new());
    assert_eq!(piece.rendered(), "");
}

#[test]
fn named_ref_count_renders_name_and_dollar() {
    let mut out = String::new();
    Count::NamedRef(String::from("width"), 3).fmt(&mut out);
    assert_eq!(out, "width$");
}

#[test]
fn arg_ref_count_renders_index_and_dollar() {
    let mut out = String::new();
    Count::ArgRef(1).fmt(&mut out);
    assert_eq!(out, "1$");
}

#[test]
fn star_count_renders_star() {
    let mut out = String::new();
    Count::Star(4).fmt(&mut out);
    assert_eq!(out, "*");
}

#[test]
fn implied_count_renders_nothing() {
    let mut out = String::from("before");
    Count::Implied.fmt(&mut out);
    assert_eq!(out, "before");
}

#[test]
fn fixed_count_renders_decimal() {
    let mut out = String::new();
    Count::Fixed(1234567890).fmt(&mut out);
    assert_eq!(out, "1234567890");
}

#[test]
fn fixed_count_zero() {
    let mut out = String::new();
    Count::Fixed(0).fmt(&mut out);
    assert_eq!(out, "0");
}

#[test]
fn parse_error_message() {
    let err = ParseError {
        span: Span { start: 5, end: 7 },
        description: String::from("expected '}'"),
    };
    assert_eq!(err.message(), "5: expected '}'");
}

#[test]
fn parse_error_fmt_appends() {
    let err = ParseError {
        span: Span { start: 0, end: 1 },
        description: String::from("unmatched brace"),
    };
    let mut out = String::from("error at ");
    err.fmt(&mut out);
    assert_eq!(out, "error at 0: unmatched brace");
}

#[test]
fn empty_spec_suppression() {
    let piece = Piece::Placeholder(Argument {
        position: Position::Implicit(0),
        format: empty_spec(),
    });
    assert_eq!(piece.rendered(), "{}");
}

#[test]
fn named_position() {
    let piece = Piece::Placeholder(Argument {
        position: Position::Named(String::from("value")),
        format: empty_spec(),
    });
    assert_eq!(piece.rendered(), "{value}");
}

#[test]
fn sign_plus_wins_over_sign_minus() {
    let piece = Piece::Placeholder(Argument {
        position: Position::Implicit(0),
        format: FormatSpec {
            flags: Flags {
                sign_plus: true,
                sign_minus: true,
                ..clear_flags()
            },
            ..empty_spec()
        },
    });
    assert_eq!(piece.rendered(), "{:+}");
}

#[test]
fn sign_minus_alone_renders_minus() {
    let piece = Piece::Placeholder(Argument {
        position: Position::Implicit(0),
        format: FormatSpec {
            flags: Flags {
                sign_minus: true,
                ..clear_flags()
            },
            ..empty_spec()
        },
    });
    assert_eq!(piece.rendered(), "{:-}");
}

#[test]
fn debug_lower_hex_wins_over_upper() {
    let piece = Piece::Placeholder(Argument {
        position: Position::Implicit(0),
        format: FormatSpec {
            flags: Flags {
                debug_lower_hex: true,
                debug_upper_hex: true,
                ..clear_flags()
            },
            ..empty_spec()
        },
    });
    assert_eq!(piece.rendered(), "{:x}");
}

#[test]
fn debug_upper_hex_alone() {
    let piece = Piece::Placeholder(Argument {
        position: Position::Implicit(0),
        format: FormatSpec {
            flags: Flags {
                debug_upper_hex: true,
                ..clear_flags()
            },
            ..empty_spec()
        },
    });
    assert_eq!(piece.rendered(), "{:X}");
}

#[test]
fn all_fields_render_in_order() {
    let piece = Piece::Placeholder(Argument {
        position: Position::Explicit(2),
        format: FormatSpec {
            fill: Some('-'),
            align: Alignment::Center,
            flags: Flags {
                sign_plus: true,
                alternate: true,
                sign_aware_zero_pad: true,
                debug_lower_hex: true,
                ..clear_flags()
            },
            width: Count::Fixed(10),
            precision: Count::NamedRef(String::from("prec"), 0),
            ty: String::from("?"),
        },
    });
    assert_eq!(piece.rendered(), "{2:-^+#010.prec$x?}");
}

#[test]
fn left_alignment() {
    let mut out = String::new();
    Alignment::Left.fmt(&mut out);
    assert_eq!(out, "<");
}

#[test]
fn unknown_alignment_renders_nothing() {
    let mut out = String::new();
    Alignment::Unknown.fmt(&mut out);
    assert_eq!(out, "");
}

#[test]
fn fill_without_alignment_still_renders() {
    let piece = Piece::Placeholder(Argument {
        position: Position::Implicit(0),
        format: FormatSpec {
            fill: Some('*'),
            ..empty_spec()
        },
    });
    assert_eq!(piece.rendered(), "{:*}");
}

#[test]
fn star_precision() {
    let piece = Piece::Placeholder(Argument {
        position: Position::Implicit(0),
        format: FormatSpec {
            precision: Count::Star(0),
            ..empty_spec()
        },
    });
    assert_eq!(piece.rendered(), "{:.*}");
}

#[test]
fn template_of_several_pieces() {
    let pieces = vec![
        Piece::Literal(String::from("value: ")),
        Piece::Placeholder(Argument {
            position: Position::Explicit(0),
            format: FormatSpec {
                align: Alignment::Right,
                width: Count::Fixed(8),
                precision: Count::Fixed(2),
                ..empty_spec()
            },
        }),
        Piece::Literal(String::from("{raw")),
    ];
    assert_eq!(render_template(&pieces), "value: {0:>8.2}{{raw");
}

#[test]
fn empty_template_renders_nothing() {
    let pieces: Vec<Piece> = Vec::new();
    assert_eq!(render_template(&pieces), "");
}

#[test]
fn fmt_template_appends_to_existing_sink() {
    let pieces = vec![Piece::Literal(String::from("b"))];
    let mut out = String::from("a");
    fmt_template(&pieces, &mut out);
    assert_eq!(out, "ab");
}
