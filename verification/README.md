# devicehub

The verified core of a live screen mirror and remote control for iOS devices.

`src/` is a library in Verus. It holds the decisions that the program takes and proves
what it says about them; it touches no socket, no process and no clipboard:

| Module | What it decides |
| --- | --- |
| `stats`, `rtcp`, `rtcp_wire` | reception statistics, RTCP feedback and where it goes |
| `rtp`, `hevc`, `video` | which datagrams count, and what they add to the stream |
| `recovery` | which diagnostics call for a fresh key picture |
| `keymap`, `input` | HID traffic for touches, text, chords, buttons and rotation |
| `pasteboard`, `picture`, `clipboard`, `clip_sync` | clipboard sync without echoes |
| `devices`, `manager` | the device picker and the supervision of sessions |
| `session`, `media` | the course of a session and the start of its streams |
| `cli` | the command line and the VNC settings |
| `replay` | the offline survey of a dump of RTP packets |
| `text`, `wire` | texts, decimal and big-endian numbers |

Functions state in `ensures` what they return; loops that wait for the outside are
state machines, `step` from an event to the next action. Properties that span
several calls are the public proof functions named `law_...`.

What the library takes from `idevice`, `image`, `uuid` and std stands behind small
wrappers; the comment above each says what is trusted of it.

`app/` performs the actions: tunnel, sockets, `ffmpeg`, clipboard, input surfaces.
Called as `replay_rtp`, the program surveys a dump instead.
