# init_project

A command that starts a new C or C++ project: it creates the directory, the
source and build files, copies `nob.h`, builds once, and sets up git.

The library under `src/` holds every decision of the command, verified with
Verus:

- `templates`, `messages`, `display`: the exact texts of the generated files,
  of the reports and errors, and of the coloured lines;
- `plan`: the steps that build each kind of project;
- `header`: where `nob.h` is looked for;
- `runner`: carrying out the steps in order, stopping at the first failure;
- `session`: the questions, checks and exits of the command;
- `files`: what successful actions and steps do to the project's files,
  with the laws of rewriting them;
- `laws`: properties of the runner, the plans and the session that hold for
  every input.

The library never touches the system itself. It asks for actions (print, ask,
create a directory, run a command, ...) and the program in `app/` performs
them and reports back with events.
