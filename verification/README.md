# saad-agent

A command-line coding assistant on DeepSeek models (through `rig`): it runs
shell commands and reads and writes files for the user, asks for permission
before it does, keeps the conversation in a memory that summarizes its older
half when it grows beyond a limit, and stores sessions in SQLite.

The library under `src/` holds the agent's logic, verified with Verus:

- `memory`, `message`: the stored messages (plain text only, truncated, no two
  equal neighbours), the context sent to the model, and the compaction plan and
  its outcome, with their laws.
- `permission`: the permission levels and what each answer at the prompt does;
  `RunCmd::authorize` and `WriteFile::authorize` hand a command or a write on
  only where the level or the answer grants it.
- `command`: which slash command a line names and what `/effort` decides.
- `config`: settings read from the environment, effort levels, file paths.
- `tool`: the read tool's numbered listing, the write tool's report, the shell
  invocation and the reading of a finished command's output.
- `session`, `stream_handler`, `agent`, `ui`: session ids, timestamps rendered
  from the local date and time (read by the caller) as chrono's `%Y%m%d-%H%M%S` and
  `%Y-%m-%dT%H:%M:%S` print them, stored values,
  the display action of each stream event, the preamble, layout measures.
- `text`: trimming, line splitting, number rendering and joining, specified
  character by character.

`app/` is the program around it: the terminal, the model client, the tools as
`rig` sees them, the SQLite store and the history file.

The tools the agent registers are `RunCmd`, `ReadFile` and `WriteFile`. A read
or write whose target lies outside the working directory (`path_within`
decides it from canonical paths) is asked about whatever the permission level;
`ReadFile::authorize` and `WriteFile::authorize` hold that rule. Command output
is decoded as UTF-8, invalid bytes replaced.
