# brush_ast

The abstract syntax tree of shell programs, with a printer that is proved to print it the way a
shell does.

A node is printed as a document (`layout::Doc`), and `layout::layout` says which characters a
document stands for. Three things make that more than a concatenation:

- the body of a compound command is indented;
- a word is printed exactly as written, so its inner lines are not indented;
- the body of a here-document waits for the end of the command's line and is then printed at
  column 0.

Layout of `src/`:

| module | what it holds |
| --- | --- |
| `layout` | documents, and what they are printed as |
| `layout_laws` | what holds of every printed document |
| `render` | the printer, which writes character by character, and the `Display` trait |
| `ast::command`, `ast::word`, `ast::test_expr`, `ast::arithmetic` | the nodes |
| `ast::display` | how commands are printed |
| `ast::location` | where commands are in the source text |
| `ast::copy`, `ast::copy_laws` | copies, which are printed and located as the nodes are |
| `ast::and_or` | the operators and pipelines of and-or lists |
| `ast::here_docs`, `ast::laws` | what holds of every printed and located node |
| `ast::generate` | arithmetic expressions out of raw bytes, for fuzzing |
| `declaration` | operands of declaration builtins that turn out to be assignments |
| `decimal`, `source`, `tokenizer` | integers in decimal notation, source spans, tokens |

`app/` holds copies of the tree that can be serialized and generated by a fuzzer, with conversions
in both directions, and the impls of `std::fmt::Display` and `Iterator`.
