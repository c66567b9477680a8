# tifflin_syscalls

Verified decision logic of the Tifflin kernel's thread-management and GUI
system calls, written in Verus.

- `src/values.rs`: system call numbers, object classes, methods and event
  masks, with proofs that numbers decode into group and index and are never
  duplicated; the records exchanged with user space.
- `src/gui.rs`: window groups (sessions) and windows: conversion of queued
  input events, the method dispatch of group and window objects, the blit
  geometry, the packing of sizes and positions, and the per-process group
  binding.
- `src/threads.rs`: the current-process, process-being-set-up and process
  objects, and the `wait` call as a state machine (bind every event, sleep,
  clear every event, return the number triggered).
- `tests/`: concrete scenarios for the above.
- `app/`: the kernel-side glue that performs what the library decides; it
  uses the kernel's own modules (object table, argument decoder, scheduler,
  window manager).
