# rainbow

A runtime for Rainbow bytecode, written in Verus: the decoder of `.rbb`
programs and the interpreter's machinery are verified against contracts stated
over mathematical models of the bytecode, the frames and the scopes.

## Layout

- `src/` — the verified library.
  - Data model: `_type`, `types`, `value`, `frame`, `scope`, `_struct`,
    `names`, `instruction`, `raw_instruction`, `chunks`, `program`,
    `ffi_array`.
  - Decoding: `parse_scope` (bytecode strings, numbers, immediates,
    instructions, scopes, functions, structs, imports, conditional parsing,
    the data section), `text`.
  - Interpreting: `interp` (variables and fields), `step` (what one
    instruction does, as a function on frames), `machine` (executing one
    instruction), `run` (running a block for a bounded number of steps),
    `calls` (resolving calls, entering and leaving functions, the steps of
    the loop over a scope's blocks),
    `jump`, `order`, `cast`, `float` (float bit patterns: widening and
    conversion to integers).
  - Linking and pipelines: `linker`, `pipeline`.
  - `laws` — properties that span several instructions.
- `app/` — the command-line runtime: reading files, resolving imports on
  disk, the interpreter loop that performs calls, native calls through
  `libloading`/`libffi` and float arithmetic, and the module pipeline.
- `tests/` — tests of the library on concrete programs and values.
