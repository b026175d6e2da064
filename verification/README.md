# dae-daemon

The resident service of a transparent proxy: it starts the runtime that moves packets, keeps it up,
replaces it when it is told to reload, and logs what the runtime reports.

`src/` holds what the service decides, verified with Verus. Nothing in it touches the machine. What
takes more than one step is a run: `action` says what the run asks for, and `tell` takes in what came
of it. Each run is stated as a transition on plain values (`started`, `asks`, `after`), and the laws
speak of every sequence of events.

| module | what it decides |
| --- | --- |
| `service` | how the service starts, what it does on a signal, how it ends |
| `reload` | how a reload goes, how a request to suspend is answered |
| `runtime` | what a configuration is checked against, how the runtime is replaced |
| `worker` | what the thread that reloads and its owner share |
| `client`, `claim` | how a running service is asked to reload, by one at a time |
| `progress`, `pid_file`, `control_file` | the files by which both sides talk, and how they are replaced |
| `signals`, `notify`, `service_log` | signals, the service manager, the log of the service |
| `events`, `levels`, `logfmt`, `event_log` | the events of the runtime, and how they are logged |
| `paths`, `text`, `decimal`, `utf8`, `views` | plain values |

`app/` carries the runs out: files, sockets, signals, threads and the clock. The rest of the daemon
comes in through the trait `Daemon`.
