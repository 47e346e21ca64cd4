# forge

Forge is a lightweight, extensible command line toolchain. Extensions are
pairs of files in the extensions directory: a Lua script `<name>.lua` and a
YAML manifest `<name>.yaml`.

- `src/` is the verified library: the default configuration (`config`), the
  errors (`errors`), string helpers (`text`), the naming and recognition of
  extension files (`naming`), the manifest help (`manifest`), the decisions and
  messages of the extension commands (`extension`), the layout of the command
  line (`cli`) and the routing of a parsed command line (`dispatch`).
- `app/` is the program: argument parsing with clap, the file system, prompts,
  the configuration file and running Lua scripts.
- `tests/` exercises the library on concrete values.
