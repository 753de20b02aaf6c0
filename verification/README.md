# zoisite

A small framework for plugins, verified with Verus.

- `src/registry.rs`: a registry of trait implementations. Implementations
  are registered with their names and, where they have one, a constructor;
  a `RegistryStorage` holds those of one trait, in registration order, and
  builds an instance of each that has a constructor.
- `src/expansion.rs`: what the `register` and `registry` attributes decide
  before they write code. The attribute's argument and the item come in as
  the text of their tokens and are read with `syn`; then whether the item
  can be registered, the names of the generated statics, and the messages
  of the errors.
- `src/plugin.rs`: the `Plugin` trait, the parameter map plugins are run
  with, and two plugins that answer with their names, one of them
  registered with the `Plugin` registry.
- `src/loader.rs`: the file name and path of a plugin library on Linux,
  macOS and Windows.
- `app/`: the runner, which loads a plugin library with `libloading` or
  runs the plugins registered in the program.
