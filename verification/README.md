# stabby_opaque

ABI-stable handles to opaque values, the reports that name their ABI
contracts, and the decisions behind the code that binds interfaces to them.

- `src/handles.rs`: shared and exclusive handles (`Ref`, `RefMut`), bound to an
  interface table (`InterfaceRef`, `InterfaceRefMut`) or to an erased one
  (`ErasedInterfaceRef`, `ErasedInterfaceRefMut`); their reports; the answer to
  an interface query.
- `src/report.rs`: type reports, their compatibility and ids; the `IStable`
  trait (report and layout), and `Declared`, by whose constants opaque markers
  and interface tables state their reports.
- `src/lifetimes.rs`: signatures as plain values, and the erasure of their
  lifetimes to `'static`.
- `src/symbols.rs`: the names of exported symbols.
- `src/args.rs`, `src/methods.rs`, `src/plans.rs`: the attribute arguments,
  the accepted method signatures, and what each interface attribute generates,
  with the names of the generated items.
- `app/`: reaching the values behind handles, reading attribute tokens and
  signatures with `syn`, and writing the generated code with `quote`.

Handles carry addresses as integers; the address of a reference is taken with
its provenance exposed, and `app/access.rs` turns it back into a reference.
