# oslearn

Small Linux programs, with their decisions verified by Verus:

- `mycp` copies a file with `open`, `read` and `write` alone,
- `myrun` runs a command, captures what it writes, and kills it when its time is up,
- `mymem` looks at virtual memory: what is reserved, what is there, what a `fork` shares, and what
  happens when a page is touched for the first time,
- `stdcp` and `stdcmdsh` do what the first two do with the standard library.

`src/` is the verified library. It makes no system call: it reads texts, decides which system call
comes next from the answer to the last one, and writes the lines that the user sees.

| Module | What it holds |
| --- | --- |
| `text` | cutting texts, reading and writing numbers |
| `sys`, `signal` | answers of system calls, signals |
| `copy` | the file copy |
| `run`, `run_lines`, `run_laws` | the command runner, its lines, and what holds of every run |
| `maps`, `status`, `pagemap` | `/proc/self/maps`, `status` and `smaps_rollup`, `pagemap` |
| `mem`, `mem_lines` | the experiments and their lines |
| `mem_laws`, `mem_bytes` | what holds of the experiments, and the bytes that they show and leave |
| `fault` | filling pages at their first touch |

`app/` carries the decisions out: one program, which is installed under the name of each tool. `tests/` runs the library on concrete values.
