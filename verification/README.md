# sheeko

The state logic of a small real-time text and voice server, built
data-oriented: Users and Devices are `hecs` entities, capabilities are
components, and moving the active microphone between two Devices of one User
is moving the `AudioSource` marker from one entity to another.

- `src/` is the verified library: sequence tracking, the voice packet format,
  the chat message frames, what the single-writer driver does with each
  command (creating Users and Devices, forwarding audio, fanning out chat,
  switching the audio source), and the gateway's and voice node's decisions
  (which User a new voice peer joins, what a control line names).
  Contracts speak of `world_entities`, a map from each live entity to the
  components it carries. The driver's step is `plan_command`, which returns
  the reply and the frames a command sends (each frame with the Device it is
  for and that Device's own sender) and the jitter report on a received
  packet; `deliver` then sends the reply and frames.
- `app/` is the program around it: the driver task, the Axum gateway, the UDP
  forwarder, the terminal client, the networking demos and the audio tools
  (`sheeko <subcommand>`).
- `tests/` holds the tests.
