# javascriptcore

Rust bindings for JavaScriptCore (the JavaScript engine of WebKitGTK), split in two:

- `src/` is the verified library (Verus):
  - `flags.rs`: `ValuePropertyFlags`, the flags of a JavaScript property, with
    the usual set operations and operators, its written form, and the
    conversions to and from the engine's bits.
  - `class.rs`: the class hierarchies of Rust types registered as JavaScript
    classes, the instances that constructors make, and `unwrap`, which finds
    the part of an instance that belongs to a given class of its hierarchy.
  - `value_ref.rs`: the outcome of converting an engine value to a number or a
    string, given whether the engine raised an exception.
- `app/` holds the native side: the GObject wrappers, the C trampolines that let
  JavaScript call Rust closures, and the registration of classes, methods,
  properties and vtables. It needs the `javascriptcoregtk` system library.
