# emmylua_code_analysis

The verified core of a Lua language server's analysis, written in Verus.

- `src/` holds the library. Its modules are:
  `base` (files, text ranges, syntax ids), `assoc` (association lists read
  as maps), `types` (the Lua type model and its equality), `type_check`
  (compatibility of simple types), `member`, `signature`, `decl`,
  `reference` (the index of local and global references), `flow`
  (narrowing of variable types by conditions, assignments and `assert`),
  `infer` (table literals, call arguments, assignment values),
  `diagnostics` (parameter, assignment and async checks), `hover`,
  `completion`, `semantic_tokens`, `doc_tags`, `config`, `client`,
  `resources` and `meta`.
- `tests/` runs the library on concrete inputs.
- `app/` holds what the library leaves to its users: configuration files
  with their serde derives, localized descriptions, the embedded standard
  library, and the conversions to LSP values.

The library works on plain values: syntax trees, the database of the
analysis and the language server protocol stay with its callers, which
hand it the facts it decides on.

The tables of the library (the reference index, the fields of a table
type, the inference guard) are association lists with at most one entry
per key, not `HashMap`s, although vstd specifies `HashMap`. Their keys are
names, declaration ids and member keys whose `Hash` and `Eq` come from
`derive`; the verifier does not read those impls, so it proves nothing
about lookups in a map keyed by them. The tables keyed by file could be
maps keyed by the file's number, but their entries would then come out in
the hasher's order. With lists, each operation states exactly which entry
it finds, replaces or drops, and in what order entries come out. No
`HashMap` form was tried and refused; the lists were chosen for these
reasons.
