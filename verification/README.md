# buildutils

Helpers for integration tests that need Docker containers or service binaries, with the
decisions behind them proved by Verus.

- `src/wait`: the readiness outcome (`Probe`), the wait strategies, and the state machine
  that decides, attempt by attempt, whether a wait goes on, succeeds or fails.
- `src/docker`: container configuration, the arguments of every `docker` command, what
  each command's outcome means, the post-mortem of a container, and the get-or-start
  sequence as a state machine.
- `src/service`: the start configuration of a service binary and the checks before and
  after it is started and stopped.
- `src/text.rs`: the text model shared by all of them (decimal rendering, trimming,
  searching, splitting).
- `app/`: the drivers that run `docker`, `curl`, `kill` and the binaries, sleep and await,
  and hand what they observe to the library.
