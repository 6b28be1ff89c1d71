# projectying

The tool layer of ProjectYing, the terminal AI workbench for Termux, as a
library whose behaviour is stated in `requires` / `ensures` contracts and
proved with Verus.

## Layout

- `src/` — the verified library. Among its parts:
  - tool calls: argument parsing (`tool_args`, `agent_args`, `memory_args`),
    dispatch (`dispatch`), the one-line descriptions of calls (`describe`),
    and the tool catalogue (`tools`);
  - patches: the patch grammar (`patch`, `hunk`), applying hunks to file
    text (`patch_apply`), diagnostics and previews (`patch_diag`,
    `patch_view`);
  - commands: dangerous-command detection and output summaries (`command`,
    `output`), the plans for running commands in a pipe or a terminal
    (`exec_plan`), background sessions (`background_state`,
    `background_report`), the session registry (`registry`) and its reports
    (`terminal_report`);
  - the terminal tab: keys (`keys`), the screen cache over the vt100
    emulator (`emulator`, `terminal_ui`, `terminal_text`);
  - agents: event lines (`agent_events`), reports (`agent_report`), one
    step of an agent's thread (`agent_run`), the plan of a new agent
    (`agent_spawn`), CSV batches (`batch`), parallel
    tool calls (`parallel`);
  - roles and personas (`roles`, `role_actions`, `persona`), settings,
    retention of outputs, image payloads and their
    compression steps (`view_image`, `image_kind`, `image_compress`);
  - where a path handed to a tool points (`tool_paths`), and what a
    clamped report keeps of its first line (`report_lines`).
- `tests/` — tests on concrete values.
- `app/` — the parts that do I/O: files, threads, the terminal and the
  model calls, each handing plain values to the library.

Outside crates (`vt100`, `base64`, `csv`) are reached through a few
trusted wrappers in `src/`, each with a doc comment saying what its
contract claims of the outside function.
