# docker-ops-agent

An agent-to-agent server that lets its callers run a small, fixed set of docker
and anvil operations on a host, instead of giving them a shell or the docker
socket. Tools are offered by what is installed on the host, services are found by
a per-host manifest, config files are changed only through a proposal that was
staged before, and agents of a mesh can call each other.

- `src/` is the verified library. It decides: who gets in, what a request is
  answered, what a tool runs next, what is remembered. It touches nothing; each
  step names an action, and the event that the action brought leads to the next
  step.
- `app/` is the program around it: HTTP, processes, files, and reading and writing
  JSON and TOML.
- `tests/` runs the library on concrete values.

The program reads `A2A_STATIC_AUTH_TOKEN` (required), `MESH_AUTH_TOKEN`,
`A2A_HOST_LABEL`, `A2A_SELF_CARD_URL`, `REGISTRY_URL`, `REGISTRY_TOKEN`,
`COMPOSE_DIR` and `BIND_PORT`.
