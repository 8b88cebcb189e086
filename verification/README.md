# cmdstack

A notebook for command lines. Commands are stored with a tag, a note and a
favourite mark; a stored command may hold parameters (`@{int[1, 5]}`,
`@{string}`, `@{boolean}`, `@{uuid}`, and blank `@{}` ones that the user fills
in) that are given values when the command is used.

- `src/` is the library, verified with Verus: the parameter grammar and the
  values drawn for parameters, the search of stored commands, the
  configuration changes, what the command line prints, and the interactive
  handlers as machines of steps (each step takes what the last action brought
  back and says what to do next).
- `app/` is the program around it: argument parsing, the SQLite database,
  the configuration file, the prompts, the clipboard and the shell.
- `tests/` runs the library on concrete values.
