# Flamingo agent

A background agent that samples two metrics every few seconds, the UTC time and its own
resident memory, hands them to a child process, and keeps the logs locked to administrators.
It runs as a Windows service or from a shell.

## Layout

- `src/` is the library, verified with Verus. It holds every decision, every text and every
  piece of bookkeeping: the command line, the configuration, the cycle, the loop, the
  bootstrap, log rotation, log protection, Windows command-line quoting, and the service's
  lifecycle, installation and removal.
- `app/` is the program: the OS calls, the async runtime and the logging back end. It asks the
  library what to do next, does it, and reports what came of it.
- `tests/` exercises the library on concrete values.

## How the library drives the program

Whatever alternates between OS calls and decisions is a small machine. A type such as
`cycle::CycleRun`, `app::AgentRun` or `service::windows::ServiceRun` names what has to be done
next; a function such as `cycle::after_secure` takes the outcome and gives the next step. A
relation (`cycle_step`, `agent_step`, `service_step`, ...) states what each step does, and
public proof functions state what holds of every course such a machine can take:

- the child log is locked in every cycle right before the child runs, what is in it is kept,
  and a planted path is refused and left untouched (`cycle`, `platform::unix`,
  `platform::windows`);
- no child is left behind, whichever way an invocation ends (`child`);
- neither an error nor a panic of a cycle stops the loop, and at most one cycle is in flight
  (`agent`);
- the agent log is not opened before its directory is locked and no other instance holds it
  (`app`);
- once a service has reported that it starts, it reports that it stopped, with the exit code
  of what ended it (`service::windows`);
- a log stays within its bounds as long as every rotation succeeds and every write fits into
  one file; a rotation that fails, however often, loses nothing but the generation past the
  last that is kept (`rotation::laws`);
- each field of the configuration depends on its own option alone, and no path depends on the
  current directory (`config`);
- a quoted command line parses back into the arguments it was made of (`platform::winquote`).
