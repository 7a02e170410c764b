# trippy

A small OpenGL demo (a hundred spinning, colour-cycling quads) whose decisions
are verified with Verus.

- `src/` is the verified library. Building a shader or a program is a state
  machine: the library says which driver command to run next and, given the
  driver's answer, what follows, down to the error text of a failed compile or
  link. The same files prove the laws of these builds: the whole command
  sequence for every possible set of answers, that only a `GL_TRUE` status
  yields an object, that a failed build deletes its object before it fails,
  and that a program attaches its shaders in order. `events.rs` and
  `setup.rs` hold the render loop's event handling and the checks made while
  the scene is set up.
- `app/` is the program: the window, the OpenGL calls that carry out the
  library's commands, the matrices and the render loop.
- `tests/` runs the builds on concrete driver answers.
