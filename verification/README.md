# valet

A rule-based file organiser. Rules say which files they apply to
(conditions on the name, extension, size and path) and what to do with them
(move, copy, tag, rename, quarantine). The organiser indexes directories,
plans what the rules would do (a dry run), carries the plan out with retries,
keeps an operation history, and backs files up so that they can be restored.

- `src/` is the verified library: rules and matching, dry-run planning, the
  index's file rows and short hashes, the configuration's defaults and
  location, the statistics queries, and the decisions of the desktop
  commands (rule templates, rule checks and previews, execution tallies and
  retries, backups and recovery, health checks, rule export and import).
- `app/` is the program around it: the command line, the SQLite database,
  the file system, directory watching and the clock.
- `tests/` runs the library on concrete values.
