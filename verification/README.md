# team_tool

Two tools for hosts of agents: one creates a named team and runs its agents, the other cancels
a team and removes its directory.

`src/` is the library. It decides everything and does no work of its own: a call is a sequence of
steps, each of which names a piece of work, and the host hands back what the work came to.

- `steps` — whole calls: which step follows which
- `create`, `delete` — the single decisions of the two tools
- `names` — names of teams and their directories
- `registry` — active teams and the tokens by which their agents are told to stop
- `runner` — the function that runs agents
- `schema`, `tool`, `json`, `text`, `clock` — data and building blocks
- `laws` — what holds of the library as a whole

`app/` is a host on tokio: the file system, the agents, and JSON in and out.
