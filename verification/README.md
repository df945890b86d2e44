# nlm_reinstall

A two-phase tool that reinstalls a licence manager on Windows: the first
phase stops and removes the old installation, arms a continuation flag and a
reboot marker, registers itself to run after logon and reboots; the second
phase, once a reboot is confirmed, runs the installer and starts the service.

- `src/` is the verified library (Verus): the reboot check, the decimal
  marker text and its reading, the age text, process selection and the stop
  wait, and both phases as state machines that answer each reported outcome
  with the next operation.
- `app/` is the driver: console, files, processes, registry and sleeps. It
  performs each operation the phases ask for and reports the outcome back.
- `tests/` runs the library on concrete values and whole phase traces.
