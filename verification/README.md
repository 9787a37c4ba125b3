# vsdbg-rs

A call-stack filter component for the Visual Studio debug engine (Concord),
built as a COM in-process server. The decisions that the component makes
are a verified library under `src/`:

- `guid`: interface and class identifiers, and their comparison;
- `hresult`: the status codes the component returns;
- `refcount`: the reference count that the `windows` crate keeps, and the
  model of `AddRef`/`Release` sequences;
- `filter`: the filter object with its own count, its class factory and
  `DllGetClassObject`;
- `component`: the filter object with a `windows` reference count, its
  identity and filter interface pointers, and its class factory;
- `frames`: the frame the filter inserts and the array it hands back;
- `dkm`: the debug engine's frame-format options;
- `laws`: properties that span several of the functions above.

`app/` holds the COM entry points and vtables, the native object layouts,
and the calls into the debug engine's exports.
