# dockertui

A retro Docker control deck for the terminal: containers, images, volumes,
logs, interactive shells and the engine itself, driven from the keyboard.

The library under `src/` is verified with Verus. It holds the application's
state machine (`app`), the key bindings (`keymap`), the log sanitizer
(`sanitize`) and the shell-output reader (`shell_output`), the start-up
check (`bootstrap`), stopping, starting and restarting the engine (`power`:
drain the running containers, stop and mask the service, and on WSL move
the proxy socket aside; starting undoes it in the mirror order), the reading of `docker` command output and the Docker API
connection (`engine_wsl_cli`, `engine_bollard`), engine addresses
(`docker_host`), compose command lines (`compose`), the screen layout
(`layout`) and what each view shows (`ui`). Each public function states its
result in its contract; the `law_*` proof functions state properties that hold
across inputs and calls.

`app/` is the program around it: argument parsing, the terminal event loop,
drawing, engine calls, shells on a pseudo-terminal, and running the shell
commands that the start-up check and the engine's power machine ask for.
