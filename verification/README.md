# Yukino (verified core)

Yukino is an ORM framework for Rust. This crate holds its query language
front end and its entity repository, written in Verus and proved against
their contracts.

## Layout

- `src/query/parse` — the lexer (keywords, symbols, literals, identifiers) and
  the token stream with its parse buffer.
- `src/query/expr` — the recursive-descent expression parser: literals, dotted
  names, function calls, unary and binary operations by precedence.
- `src/query/ast` — the syntax tree of queries built from the grammar's parse
  tree (`QueryPair`), with locations and the errors of building it.
- `src/query/alias.rs` — collecting table and expression aliases, and
  qualifying column names with the aliases of their entities.
- `src/query/pretty/calc.rs` — folding the constants of an expression; the
  floating-point steps are handed to a function of the caller.
- `src/query/type_check`, `src/query/syntax` — the kinds of values and the
  errors of the statement syntax.
- `src/annotations.rs`, `src/association.rs`, `src/repository.rs` — entity
  annotations; associated entities, the definitions of association fields and
  the resolution of column names through an association (the join it needs and
  the name rewritten onto the joined entity); the repository of loaded
  entities.
- `app/` — floating-point folding and comparison, conversions to and from
  `HashMap`, and the error of the command line tool.
- `tests/` — the tests of the library.

Verify with Verus; the laws of the library are the `law_*` proof functions.

## Not held here

- The rest of association management: the value converters read and write
  database values (`types`), the field resolver seed and the field resolver
  drive the entity resolvers (`resolver`) and generate Rust code with
  `quote`/`syn`, and the sources of those modules are not part of this tree.
  The literal wrapping of the type resolver is left out too: its error names
  the expected type by the text of a `TypeInfo`, which that missing module
  defines.
- The type checker (`TypeChecker`, type inference and wrapping of
  expressions): it reads field definitions and type resolvers from those same
  missing modules.
- The statement syntax (`Select`, `SelectItem`, `OrderByItem` parsing): it
  needs keywords (`from`, `where`, `group by`, `having`, `order by`, `as`,
  `asc`, `desc`) and a `parse_token` operation that the lexer and parse buffer
  do not define.
- The database layer, delayed execution, the caches and the command line
  tool, which rest on the transaction and resolver modules.
