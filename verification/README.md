# worktrunk

Git worktree management (`wt`), with its logic verified by Verus.

- `src/` is the verified library. Each module states its behaviour in
  `requires`/`ensures` contracts over spec functions:
  - `text`: characters, lines, trimming, prefixes, paths and numbers;
  - `styling`: ANSI styles, emoji messages, styled lines and their widths;
  - `error`: the messages of git and worktrunk errors;
  - `git`: hook types, worktrees, `git worktree list --porcelain`;
  - `semaphore`: the permit count of a counting semaphore;
  - `expansion`: branch sanitizing, shell escaping, template expansion;
  - `path`: paths shown relative to the home directory;
  - `shell`, `configure_shell`: shells, their startup files and the
    integration line, and what installing it does to a file;
  - `config_cmd`: the `config` commands (example file, status keys, shell
    status report, `config show`);
  - `completion`: what to complete on a command line;
  - `hooks`, `approval`: hook commands, their approval and failure handling;
  - `switch`, `merge`, `remove`, `stash`: the decisions and messages of
    those commands;
  - `gitlab`: CI status from GitLab merge requests and pipelines;
  - `pager`, `process`: pager choice and child process results.
- `app/` is the `wt` program: argument parsing, files, git and `glab`
  processes, threads and the terminal around the library.
- `tests/` runs the library on concrete inputs.

Calls into `anstyle`, `unicode-width`, `shell-escape`, `minijinja` and
`shlex` stand behind small trusted wrappers whose contracts say what those
crates compute.
