use descar_core::error::error_code::ErrorCode;
use descar_core::error::error_reporter::ErrorReporter;
use descar_core::error::errors::CompileError;
use descar_core::file::file_size::FileSizeInfo;
use descar_core::location::line_tracker::LineTracker;
use descar_core::location::path_text::truncate_path;
use descar_core::location::source_location::{SourceLocation, SourceLocationError, UNKNOWN};
use descar_core::location::source_span::{SourceSpan, SpanError};
use descar_core::printers::ast_printer::{
    count_expr_nodes, count_stmt_nodes, format_literal, format_type, format_type_size,
};
use descar_core::printers::ast_printer::{pretty_print, pretty_print_stmt};
use descar_core::printers::tree::{expr_outline, expr_tree, stmt_tree, Style};
use descar_core::syntax::ast::{BinaryOp, Expr, LiteralValue, Parameter, Stmt, Type, UnaryOp, UnaryOpSide, VarBinding};
use descar_core::tokens::number::Number;
use descar_core::utils::{commit_hash_from_output, create_span, dummy_span, strip_ansi_codes, t_span, ObjectPool};

fn location(line: i32, column: i32, offset: i64) -> SourceLocation {
    SourceLocation::create(line, column, offset).unwrap()
}

#[test]
fn the_line_tracker_maps_offsets_to_lines_and_columns() {
    let tracker = LineTracker::new("src/main.dr", "ab\r\ncé\nd".to_string());
    let start = tracker.location_for(0);
    assert_eq!((start.line(), start.column(), start.offset()), (1, 1, 0));
    let c = tracker.location_for(4);
    assert_eq!((c.line(), c.column(), c.offset(), c.index()), (2, 1, 4, 4));
    let d = tracker.location_for(8);
    assert_eq!((d.line(), d.column(), d.offset()), (3, 1, 8));
    assert_eq!(d.code_point_offset(), 7);
    assert_eq!(d.utf8_offset(), 8);
    assert_eq!(tracker.get_line(1), Some("ab"));
    assert_eq!(tracker.get_line(2), Some("cé"));
    assert_eq!(tracker.get_line(3), Some("d"));
    assert_eq!(tracker.get_line(0), None);
    assert_eq!(tracker.get_line(4), None);
    assert_eq!(tracker.source_len(), 9);
    let span = tracker.span_for(4..7);
    assert_eq!(span.to_text(), "src/main.dr:line 2:column 1-line 2:column 3");
}

#[test]
fn lone_carriage_returns_and_unicode_separators_break_lines() {
    let tracker = LineTracker::new("a.dr", "x\ry\u{2028}z".to_string());
    assert_eq!(tracker.location_for(2).line(), 2);
    assert_eq!(tracker.location_for(6).line(), 3);
    assert_eq!(tracker.get_line(2), Some("y"));
}

#[test]
fn spans_measure_and_combine() {
    let a = SourceSpan::new("f.dr".to_string(), location(1, 1, 0), location(1, 5, 4));
    let b = SourceSpan::new("g.dr".to_string(), location(1, 3, 2), location(2, 2, 9));
    assert_eq!(a.length(), 4);
    assert!(!a.is_empty());
    assert!(!a.is_multiline());
    assert!(b.is_multiline());
    assert!(a.contains(location(1, 2, 1)));
    assert!(!a.contains(location(1, 5, 4)));
    assert!(a.overlaps(&b));
    let merged = a.merge(&b);
    assert_eq!(merged.file_path(), "f.dr");
    assert_eq!(merged.start().offset(), 0);
    assert_eq!(merged.end().offset(), 9);
    assert_eq!(a.extract_from("main = 1"), "main");
    let point = SourceSpan::point("f.dr".to_string(), location(1, 1, 0));
    assert!(point.is_empty());
    assert_eq!(point.to_text(), "f.dr:line 1:column 1");
}

#[test]
fn paths_keep_their_last_components() {
    assert_eq!(truncate_path("a/b/c/d.dr", 2), "../c/d.dr");
    assert_eq!(truncate_path("c/d.dr", 2), "c/d.dr");
    assert_eq!(truncate_path("d.dr", 2), "d.dr");
    assert_eq!(truncate_path("/abs/path/to/file.dr", 2), "../to/file.dr");
}

#[test]
fn locations_keep_their_fields() {
    let l = SourceLocation::create_full(3, 4, 10, 9, UNKNOWN, 7).unwrap();
    assert!(!l.has_utf8_offset());
    assert!(l.has_code_point_offset());
    let with = l.with_utf8_offset(12);
    assert_eq!(with.utf8_offset(), 12);
    assert_eq!(with.with_code_point_offset(UNKNOWN).code_point_offset(), UNKNOWN);
    assert_eq!(SourceLocation::create(1, 1, 1i64 << 40), Err(SourceLocationError::OffsetTooLarge(1i64 << 40)));
    assert_eq!(SourceLocation::default(), SourceLocation::create(1, 1, 0).unwrap());
}

#[test]
fn errors_are_reported_with_their_source_line() {
    let tracker = LineTracker::new("main.dr", "var @@@ = 1;\n".to_string());
    let span = tracker.span_for(4..7);
    let reporter = ErrorReporter::new(tracker);
    let report = reporter.report_errors(vec![
        CompileError::LexerError {
            code: Some(ErrorCode::E0001),
            message: "Invalid or unrecognized token: \"@@@\"".to_string(),
            span,
            help: Some("Remove it.".to_string()),
        },
        CompileError::IoError("disk full".to_string()),
    ]);
    assert_eq!(
        strip_ansi_codes(&report),
        "ERROR [E0001] LEX: Invalid or unrecognized token: \"@@@\"\n\
         Location: main.dr:line 1:column 5-line 1:column 8\n   \
         1 │ var @@@ = 1;\n     \
         │     ^^^\n\
         help: Remove it.\n\
         ERROR I/O: disk full\n"
    );
}

#[test]
fn multiline_errors_mark_their_first_line() {
    let tracker = LineTracker::new("m.dr", "ab\ncd\n".to_string());
    let span = tracker.span_for(1..4);
    let reporter = ErrorReporter::new(tracker);
    let report = reporter.report_errors(vec![CompileError::TypeError {
        code: None,
        message: "bad".to_string(),
        span,
        help: None,
    }]);
    assert_eq!(
        strip_ansi_codes(&report),
        "ERROR TYPE: bad\nLocation: m.dr:line 1:column 2-line 2:column 2\n   1 │ ab\n     │  ^\n     │ ... (error spans lines 1-2)\n"
    );
}

#[test]
fn ansi_codes_are_removed() {
    assert_eq!(strip_ansi_codes("\x1B[31mError\x1B[0m"), "Error");
    assert_eq!(strip_ansi_codes("plain"), "plain");
    assert_eq!(strip_ansi_codes("\x1B[1;32mok\x1B[0m!"), "ok!");
}

#[test]
fn test_spans_are_built_from_positions() {
    let span = create_span("t.dr", 2, 3, 2, 7);
    assert_eq!(span.start().line(), 2);
    assert_eq!(span.start().column(), 3);
    assert_eq!(span.end().column(), 7);
    assert_eq!(span.file_path(), "t.dr");
    assert_eq!(t_span(4).start().line(), 4);
    assert_eq!(dummy_span(), SourceSpan::default());
}

#[test]
fn the_pool_hands_back_the_last_released_object() {
    let mut pool: ObjectPool<u32> = ObjectPool::new();
    assert_eq!(pool.acquire(), None);
    pool.release(1);
    pool.release(2);
    assert_eq!(pool.acquire(), Some(2));
    assert_eq!(pool.acquire(), Some(1));
    assert_eq!(pool.acquire(), None);
    let mut sized: ObjectPool<String> = ObjectPool::with_capacity(4);
    sized.release("x".to_string());
    assert_eq!(sized.acquire(), Some("x".to_string()));
}

#[test]
fn file_sizes_keep_their_byte_count() {
    assert_eq!(FileSizeInfo::new(2048).bytes, 2048);
    assert_eq!(FileSizeInfo::MAX_PREFIX_INDEX, 5);
}

#[test]
fn tree_pieces_print_and_count() {
    let one = Expr::new_number_literal(Number::Integer(1), SourceSpan::default());
    let n = Expr::Variable { name: "n".to_string(), span: SourceSpan::default(), ty: None };
    let size = Expr::Binary {
        left: Box::new(n),
        op: BinaryOp::Add,
        right: Box::new(one),
        span: SourceSpan::default(),
        ty: None,
    };
    assert_eq!(format_type_size(&size), "n ADD 1");
    assert_eq!(count_expr_nodes(&size), 3);
    let negated = Expr::Unary {
        op: UnaryOp::Negate,
        side: UnaryOpSide::Prefix,
        expr: Box::new(Expr::new_number_literal(Number::Integer(2), SourceSpan::default())),
        span: SourceSpan::default(),
        ty: None,
    };
    assert_eq!(format_type_size(&negated), "NEGATE2");
    let array = Type::Array { element_type: Box::new(Type::I32), size: Box::new(size) };
    assert_eq!(format_type(&array), "[i32; n ADD 1]");
    assert_eq!(format_type(&Type::Vector { element_type: Box::new(Type::Bool) }), "vector<bool>");
    assert_eq!(format_literal(&LiteralValue::StringLit("hi".to_string())), "\"hi\"");
    assert_eq!(format_literal(&LiteralValue::CharLit("c".to_string())), "'c'");
    assert_eq!(format_literal(&LiteralValue::Bool(false)), "false");
    assert_eq!(format_literal(&LiteralValue::NullPtr), "nullptr");

    let call = Expr::Call {
        callee: Box::new(Expr::Variable { name: "f".to_string(), span: SourceSpan::default(), ty: None }),
        arguments: vec![
            Expr::new_number_literal(Number::Integer(1), SourceSpan::default()),
            Expr::new_number_literal(Number::Integer(2), SourceSpan::default()),
        ],
        span: SourceSpan::default(),
        ty: None,
    };
    assert_eq!(format_type_size(&call), "f(1, 2)");
    assert_eq!(count_expr_nodes(&call), 4);

    let declaration = Stmt::VarDeclaration {
        bindings: vec![VarBinding::new("a".to_string(), Some(call)), VarBinding::new("b".to_string(), None)],
        type_annotation: Type::I64,
        is_mutable: true,
        span: SourceSpan::default(),
    };
    assert_eq!(count_stmt_nodes(&declaration), 1 + 2 + 4);
    let block = Stmt::Block { statements: vec![declaration, Stmt::Break { span: SourceSpan::default() }], span: SourceSpan::default() };
    assert_eq!(count_stmt_nodes(&block), 1 + 7 + 1);
}

#[test]
fn commit_hashes_are_read_from_git_output() {
    let hash = "0123456789abcdef0123456789ABCDEF01234567";
    assert_eq!(commit_hash_from_output(&format!("{hash}\n")), Some(hash.to_string()));
    assert_eq!(commit_hash_from_output(&format!("  {hash} \r\n")), Some(hash.to_string()));
    assert_eq!(commit_hash_from_output("0123456789abcdef"), None);
    assert_eq!(commit_hash_from_output("g123456789abcdef0123456789abcdef01234567\n"), None);
    assert_eq!(commit_hash_from_output(""), None);
}

#[test]
fn empty_spans_overlap_nothing() {
    let inside = SourceSpan::point("p.dr".to_string(), location(1, 6, 5));
    let around = SourceSpan::new("p.dr".to_string(), location(1, 1, 0), location(1, 11, 10));
    assert!(!inside.overlaps(&around));
    assert!(!around.overlaps(&inside));
    assert!(around.overlaps(&around));
    let touching = SourceSpan::new("p.dr".to_string(), location(1, 11, 10), location(1, 12, 11));
    assert!(!around.overlaps(&touching));
}

#[test]
fn statements_are_drawn_as_outlines() {
    let span = SourceSpan::default;
    let var = |n: &str| Expr::Variable { name: n.to_string(), span: span(), ty: None };
    let num = |v: i64| Expr::new_number_literal(Number::Integer(v), span());
    let function = Stmt::Function {
        name: "f".to_string(),
        parameters: vec![Parameter::new("x".to_string(), Type::I32, span())],
        return_type: Type::I32,
        body: Box::new(Stmt::Block {
            statements: vec![
                Stmt::VarDeclaration {
                    bindings: vec![VarBinding::new("a".to_string(), Some(num(1))), VarBinding::new("b".to_string(), None)],
                    type_annotation: Type::I32,
                    is_mutable: false,
                    span: span(),
                },
                Stmt::Return {
                    value: Some(Expr::Binary {
                        left: Box::new(var("a")),
                        op: BinaryOp::Add,
                        right: Box::new(var("x")),
                        span: span(),
                        ty: None,
                    }),
                    span: span(),
                },
            ],
            span: span(),
        }),
        span: span(),
    };
    let expected = [
        "└── Function",
        "    ├── Name:",
        "    │   └── f",
        "    ├── Parameters:",
        "    │   └── Parameter 'x'",
        "    │       └── Type: i32",
        "    ├── Return Type:",
        "    │   └── i32",
        "    └── Body:",
        "        ├── ConstDeclaration",
        "        │   ├── Variables:",
        "        │   │   ├── a",
        "        │   │   └── b",
        "        │   ├── Type:",
        "        │   │   └── i32",
        "        │   └── Initializers:",
        "        │       └── Literal 1",
        "        └── Return",
        "            └── Value:",
        "                └── BinaryOp ADD",
        "                    ├── Left:",
        "                    │   └── Variable 'a'",
        "                    └── Right:",
        "                        └── Variable 'x'",
    ];
    assert_eq!(stmt_tree(&function), expected.map(str::to_string).to_vec());

    let empty_loop = Stmt::While {
        condition: Box::new(Expr::new_bool_literal(true, span())),
        body: Box::new(Stmt::Block { statements: vec![], span: span() }),
        span: span(),
    };
    assert_eq!(
        stmt_tree(&empty_loop),
        ["└── While", "    ├── Condition:", "    │   └── Literal true", "    └── Body: (empty)"].map(str::to_string).to_vec()
    );

    let call = Expr::Call { callee: Box::new(var("g")), arguments: vec![num(1), num(2)], span: span(), ty: None };
    assert_eq!(
        expr_tree(&call),
        [
            "└── Function Call",
            "    ├── Callee:",
            "    │   └── Variable 'g'",
            "    └── Arguments:",
            "        ├── Arg:",
            "        │   └── Literal 1",
            "        └── Arg:",
            "            └── Literal 2",
        ]
        .map(str::to_string)
        .to_vec()
    );
}

#[test]
fn reversed_spans_are_refused() {
    let refused = SourceSpan::try_new("p.dr".to_string(), location(1, 5, 4), location(1, 2, 1));
    assert_eq!(refused, Err(SpanError::EndBeforeStart));
    let built = SourceSpan::try_new("p.dr".to_string(), location(1, 2, 1), location(1, 5, 4)).unwrap();
    assert_eq!((built.start().offset(), built.end().offset()), (1, 4));
    let point = SourceSpan::try_new("p.dr".to_string(), location(1, 2, 1), location(1, 2, 1)).unwrap();
    assert!(point.is_empty());
}

#[test]
fn pretty_printing_draws_the_outline_in_styles() {
    let span = SourceSpan::default;
    let sum = Expr::Binary {
        left: Box::new(Expr::Variable { name: "a".to_string(), span: span(), ty: None }),
        op: BinaryOp::Add,
        right: Box::new(Expr::new_number_literal(Number::Integer(2), span())),
        span: span(),
        ty: None,
    };
    let styles: Vec<Style> = expr_outline(&sum).iter().map(|l| l.style).collect();
    assert_eq!(styles, vec![Style::Operator, Style::Structure, Style::Variable, Style::Structure, Style::Literal]);
    let drawn = pretty_print(&sum);
    assert_eq!(
        strip_ansi_codes(&drawn),
        "└── BinaryOp ADD\n    ├── Left:\n    │   └── Variable 'a'\n    └── Right:\n        └── Literal 2\n"
    );
    let stop = Stmt::Break { span: span() };
    assert_eq!(strip_ansi_codes(&pretty_print_stmt(&stop)), "└── Break\n");
}
