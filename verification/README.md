# carplay_audio

Control logic of a Raspberry Pi car-stereo audio daemon that bridges AirPlay
and Bluetooth A2DP through a DSP pipeline, with its terminal client.

`src/` is the verified library:

- `source`, `protocol`: the audio sources and the shared constants.
- `text`: character search used by the metadata parser.
- `metadata`, `item_format`, `metadata_laws`: the shairport-sync metadata
  pipe: item parsing, payload decoding and the reader that gathers tracks.
- `track`: track information and the Bluetooth player's tags.
- `activity`: the activity detector (hysteresis) of each source.
- `playback`: the source-switching decisions of the playback thread.
- `control`, `display`: key handling and status texts of the terminal client.
- `settings`: fitting saved equalizer gains to the bands.
- `capture`: what the ALSA loops do after an error, and the wait before
  reopening a device.
- `stats`: the shared frame counters.

`app/` holds the programs: ALSA capture and playback, the floating-point DSP
pipeline and meters, the Unix socket, WebSocket and BLE servers, the D-Bus
poller and the ratatui client. `carplay-audio` runs the daemon,
`carplay-audio tui` the client.
