# arsync

The verified core of arsync, a tool that copies files and directory trees
on one machine with io_uring, in the manner of rsync.

- `src/` is the library, written in Verus and verified whole: each
  function's contract states what it computes or changes, except where
  the only effect is on an object shared with other holders (a progress
  bar, a shared permit pool), which no contract can follow. It holds the rsync wire formats (varints,
  rolling and strong checksums, multiplexed frames, file-list entries), the
  handshake rules, command-line validation, hardlink tracking, the copy
  loop's bookkeeping, statistics, translations and the error types.
- `app/` is the program around it: argument parsing with clap, logging,
  the filesystem, io_uring through compio, and the process-wide language.
- `tests/` exercises the library as a user of the crate.
