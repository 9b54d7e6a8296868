# nyaterm_mcp

The decisions of an in-process MCP (Model Context Protocol) server that lets an external AI
operate the terminals of a terminal application, verified with Verus.

- `src/tools.rs`, `src/execute.rs`: the tools. A command goes from step to step; each step says
  what is to be done outside, and a method takes what came of it.
- `src/approval.rs`, `src/audit.rs`, `src/auth.rs`: the user's approval, the audit log, the bearer
  token.
- `src/server.rs`: start, stop and status of the server.
- `src/laws.rs`: what holds of whole calls and of the server's life, for all outside answers.
- `src/config.rs`, `src/error.rs`, `src/session.rs`, `src/ids.rs`, `src/text.rs`: the vocabulary.
- `app/`: HTTP, the tool protocol and JSON around the library. The application's own sessions,
  settings and frontend come in through the traits of `app/host.rs`.
