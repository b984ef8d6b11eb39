# codex-loop

`codex-loop` runs the same prompt in a fresh `codex exec` process at a fixed interval. The
interval starts when a process has exited.

```text
Usage: codex-loop [OPTIONS] <INTERVAL> <PROMPT>

Options:
  -C, --cwd <DIR>           Working directory
  -m, --model <MODEL>       Codex model override
      --max-runs <N>        Stop after N iterations
      --timeout <DURATION>  Maximum duration of an individual Codex run
      --stop-on-error       Stop the loop if Codex fails
      --verbose             Print additional lifecycle information
  -h, --help                Print help
```

- `src/` is the library, verified with Verus. It holds the decisions: a state machine for the
  loop (`run_loop`), one for a single run (`run`), one for the end of a process group
  (`termination`), the meaning of Codex's events (`event`, `stream`), the verdict on a run
  (`runner`) and the checks on the command line (`cli`, `time`, `notation`). The public proof
  functions whose names begin with `law_` state what holds of it as a whole.
- `app/` is the program around it: it does what the state machines call for (processes,
  signals, sleeps, reading and writing) and tells them what came of it.
- `tests/` holds the tests of the library.

Ctrl-C during a run, and the end of its `--timeout`, end the process group that Codex leads:
the group is asked to end, and what is left of it after two seconds is killed. The timeout
covers the reading of Codex's output, so that a process that keeps the output open does not
prolong the run.

`json`, `time` and `path` also hold what is taken on trust of `serde_json`, `humantime` and
the standard library: each such item says which function it speaks of, and what it claims.
