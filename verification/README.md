# descar_core

The core of the Descar compiler: source locations and line tracking, numeric
literal parsing, the lexer's decisions, the syntax tree, semantic analysis
(symbol tables, type rules, the type checker, the typed tree) and error
reporting. The library in `src/` is written in Verus: every function carries
a contract over mathematical models of its data, and the laws of the library
(what checking keeps, what declaring a name does, how types are interned and
promoted, where locations point) are stated and proved as proof functions.

Layout:

- `src/location`: byte offsets to lines and columns, spans, source ids.
- `src/tokens`, `src/lex`: token kinds, numeric literal parsers, escape
  validation, lexical errors and the lexer's step function.
- `src/syntax`: the syntax tree, its printed forms and operator precedence.
- `src/semantic`: scopes, symbol tables, type rules, the type checker and
  the laws it keeps, tree validation, the typed tree.
- `src/error`: error codes, compile errors and the terminal error reporter.
- `src/printers`: printed forms, node counts and the styled outlines of syntax trees.
- `app/`: the `logos` scanner that feeds the lexer, `thiserror` errors,
  floating-point file-size formatting and the build's commit hash.
- `tests/`: tests of the library on concrete programs and values.
