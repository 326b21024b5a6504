# perry_lower_call

The call-lowering stage of the Perry TypeScript compiler's code generator,
written in Verus: how a call, a `new` expression or a native method call in
the HIR becomes LLVM-style instructions, with each lowering's result stated
as a contract and proved.

## Model

- `ir`: the instruction builder (`FnBuilder`) and its mathematical view —
  blocks of instructions, stack slots, the string pool, the declared runtime
  functions and the next free register. Every emitter states the builder it
  leaves in terms of the one it was given.
- `hir`: the expressions and statements the lowerings read.
- Operands that come from lowering a sub-expression are inputs
  (`Operand::Ext`), so each lowering is proved for every value of them.

## Layout

- Routing: `call_route` (which lowering a call takes), `extern_call`
  (imported names, Node submodules, native libraries through `ffi`,
  dispatch tables through `ui_table`), `namespace_call`, `func_ref`,
  `closure_call`, `class_method` (user-class instance methods: direct
  call, override probe, class-id towers), `method_dispatch`, `static_dispatch`, `receiver_methods`,
  `collections`, `console`, `index_call`.
- Construction: `new_object`, `new_init`, `new_ctor`, `new_scope`,
  `new_sequence` (the whole `new` of a user class, step by step),
  `object_alloc`, `field_init`, `field_emit`, `builtin_new`, `web_ctor`,
  `fetch_ctor`.
- Native modules: `native_table`, `native_module`, `native_dispatch`,
  `fetch`, `promise`, `atomics`, `buffer_read`, `web_events`,
  `notification`, `options_literal`.
- Analyses: `closure_scope`, `class_layout`, `method_resolution`,
  `override_check`, `call_args`, `marshal`, `text`, `util_types`.

The laws that relate several functions are public proof functions named
`law_*` in the module they speak of. `tests/` runs the lowerings on concrete
inputs.
