# pull-all

An interactive dashboard that pulls every git repo under a directory, with the rules behind it
proved in Verus.

- `src/` is the library: reading git's output, the state machine of a pull, the dashboard's
  state, the rows of its list with their groups and folders, its keys and clicks, and what each
  pane and modal shows, cell by cell. Every function
  states what it returns or changes. Public proof functions named `law_…` state what holds across
  functions.
- `app/` is the program around it: the terminal, the processes, the files.
- `tests/` runs the library on concrete values.

Where the library leans on another crate (the display width of text, lower case, the division of
the screen), a small wrapper says what is taken on trust.

## What is shown where

The library works on plain values. A view function takes the state and an area of the screen and
returns lines of styled text, the areas that they go into, and what can be clicked; the program
draws them and hands what can be clicked back through the `capture_…` methods. A key or a click
goes through `handle_key` or `handle_mouse`, which change the state and return an `Effect` for
the program to carry out.
