# vox_golem

The decisions of the Vox Golem voice assistant, as a verified library, and the desktop application
around it.

- `src/` is the library. Every function states in its contract what it returns or changes, and
  Verus proves it. What holds of the library as a whole stands beside the functions as proof
  functions whose names begin with `law_`.
- `app/` is the desktop application: windows, devices, files and services. It performs what the
  library decides and hands back what came of it.
- `tests/` runs the library on given values.

The longer workings of the application (answering a prompt, switching the local model, installing
an update) are functions in the library from an event to the next step. The application runs the
loop: it performs the step and makes the next event of the outcome.
