# emuiibo NFP user service core

`src/` is the verified decision core of the NFP user service: the service and
device state machine (`user.rs`), the types it speaks in (`types.rs`), the
session manager (`manager.rs`) and the laws proved over the state machine
(`laws.rs`). Each command is a method on `User` whose contract states the new
state and the answer exactly; the results of outside queries (is the active
amiibo valid, does an application area exist, how large is it) are handed in
as plain values.

`app/` is the IPC glue for the Switch: command table, events, the emulation
thread, and the reads and writes of amiibo data. It calls the library for
every decision.
