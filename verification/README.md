# wta

A terminal agent for Windows Terminal: a chat with an agent that recommends
what to do next and carries out what the user chooses, fixes for commands that
failed, a list of the agents in other panes, tools for other agents, and
commands that control the terminal from a shell.

`src/` is the library. It holds the decisions and computations, each with a
contract that Verus proves:

- `app`: the state of the application, the events it takes and the effects it
  asks for; `app::laws` states what every event keeps.
- `coordinator`, `executor`, `commandline`: reading and checking
  recommendations, and carrying them out step by step.
- `cli`: the commands, as questions to the terminal and texts to print.
- `wt_channel`: the messages of the channels to the terminal.
- `mcp`, `preflight`, `ui`, `ui_trace`, `win32`: the texts of the tools, the
  checks of the agent's program, the layout of the screen, and the like.
- `text`, `text_map`, `editing`, `json`: what the others are built on.

The library performs no input or output. It says what to do next, and takes
what came of it. The program around it stands in `app/`; the tests stand in
`tests/`.
