# QuadBench (verified core)

QuadBench is a virtual quadcopter hardware bench for practising with real
Betaflight SITL: it streams simulated sensor (FDM) and receiver (RC) packets
to SITL, reads back motor outputs, relays Betaflight Configurator's MSP
traffic, and maps a RadioMaster Pocket to receiver channels.

- `src/` is the library, verified with Verus: SITL wire formats
  (`protocol`), the SITL bridge and Configurator proxy decisions (`bridge`,
  `proxy`, `transport`), the physics worker's timing (`physics`), controller
  input and the Pocket channel mapping (`input`), the bench state and link
  logic (`state`, `bench`) and page/format helpers (`ui`).
- `app/` is the program around it: the egui window, worker threads, UDP/TCP
  and WebSocket sockets, the gilrs controller backend, and the floating-point
  physics and FDM kinematics.
- `tests/` exercises the library.
