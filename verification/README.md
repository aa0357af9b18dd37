# edera-check

A CLI that checks whether a host is ready to install Edera (`preinstall`), whether a host
booted into Edera works (`postinstall`), and collects a troubleshooting report (`collect`).
Each run prints the results of its check groups and leaves a `.tar.gz` report on the host.

## Layout

- `src/` is the verified library, written in Verus. It holds every decision the tool makes:
  what each check concludes from what was read off the host, how a group's result follows
  from its checks, which groups run and in which order, whether a run passes, how recorded
  files are decoded, and what the report's files are named and hold. Each public function
  states its result in its `ensures`; the `law_*` proof functions state properties that hold
  across calls or across all inputs.
  - `helpers/`: check results, group results and categories, the console lines of a group,
    CPU information parsing, kernel module and version checks, init systems.
  - `checkers/`: the preinstall, postinstall, IOMMU, NUMA and scripted check groups.
  - `recorders/`: the host snapshot recorders.
  - `hardware.rs`, `report.rs`, `text.rs`: hardware records, the run and its report, and the
    text functions the rest is built on.
- `app/` is the program around the library: the command line, entering the host's
  namespaces, reading files and running commands on the host, printing, and writing the
  report archive.
- `tests/` runs the library on concrete inputs.
