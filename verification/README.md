# gpui_form

The headless core of a form toolkit for GPUI applications, written in Verus.
Every function under `src/` that Verus verifies carries a contract it proves.
The calls into outside crates (`heck`'s case conversions, `syn`'s parsers,
`phonenumber`) and a few std formatting calls sit behind small trusted
wrappers marked `#[verifier::external_body]`: their contracts are believed,
not proved, and each doc comment says what it claims.

- `path` — typed field paths (`address.city`), equality by segments.
- `state` — `FormState`: a baseline snapshot and a live value, with dirty
  tracking, reset and sync.
- `schema`, `registry`, `components` — field metadata: component behaviours,
  layout hints, per-field and per-form descriptions.
- `infinite_select`, `tuple_select`, `demo` — selection paths through nested
  enums, building values from paths and paths from values, the per-level
  select items.
- `imports` — a deduplicated, sorted import set and its grouping by parent
  module.
- `codegen` — planning a generated form scaffold from a form shape: the
  checks (identifiers, types, paths, source module), the generated names, the
  imports, and the body's order with its section headings.
- `scaffold_source` — source text of scaffold pieces: a number input's
  subscriptions and handlers, a field's `description_fn` call.
- `infinite_select_derive`, `infinite_select_source`, `options` — the rules
  of the cascading-select derive (which variants take part, which are
  refused and with what message), the source text of the impl it writes,
  and the form derive's options.
- `form_derive`, `component_source`, `holder_source`, `form_source` — the
  form derive's per-field decisions and the source text it writes: the
  value holder (fields with their koruma attributes, `Default`, both `From`
  impls), the component fields and builders (number inputs, selects,
  cascading selects), the shape registration with each field's metadata and
  layout, the error struct, and the whole expansion.
- `phone` — phone-number validation against a selected country on top of the
  `phonenumber` crate.

Generated code is produced as source text with an exact specification;
`app/` parses it into token streams. The templates of the input, checkbox,
switch and date-picker components are not part of this library: a form that
uses them gets no expansion here.

`app/` renders the planner's decisions as `proc_macro2` token streams with
`quote` and `syn`; it is ordinary Rust and not verified.
