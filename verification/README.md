# jira-at-home

Braindead per-project issue tracking over MCP.

Notes are Markdown files outside the repository:

```text
~/.local/state/jira_at_home/projects/.../issues/<feature|bug>/<slug>.md
```

Linked Git worktrees share one set of issues, by the identity of Git's common
directory.

Tools: `project.bind`, `issue.save`, `issue.read`, `issue.list`,
`issue.delete`, `system.health`, `system.telemetry`.

## Layout

- `src/` is the library, verified with Verus. It makes every decision and never
  touches a file, a process or the clock: what it needs from outside it asks
  for as a step, and the answer is handed back.
  - `text`, `order`, `json`, `path`, `fault`: plain values and their models.
  - `issue`, `anchor`, `store`, `migration`: issues, and where they are kept.
  - `catalog`, `output`, `reports`, `routing`, `protocol`: tools and their
    results.
  - `frame`, `kernel`, `telemetry`: what `libmcp` contributes, behind contracts.
  - `supervisor`, `service`, `binary`, `host`: the worker and the host.
  - `notebook`, `session`: laws that hold across operations.
- `app/` performs the steps: standard input and output, files, the worker
  process, releases.
- `tests/` runs the library over files in memory.

`Cargo.toml` names `libmcp-derive`, which only `libmcp` uses, to keep it below
2.3: from there on it asks for a newer compiler than `libmcp` 2.2 does.
