# rioting

Home security system: reads the RTSP streams of IP cameras, repackages them
as HLS through ffmpeg and serves them, with pan/tilt control over ONVIF, to a
browser.

The library under `src/` is verified with Verus:

- `config` — camera and server configuration, ONVIF port defaults.
- `address` — RTSP and device-service URLs (parsed by the `url` crate).
- `soap`, `auth` — SOAP envelopes and request bodies; the WS-Security
  `UsernameToken` header with its `Base64(SHA-1(nonce + created + password))`
  digest.
- `xml`, `onvif` — the parsed response model (parsed by `roxmltree`), the
  lookups of service addresses, profile tokens and SOAP faults, and the
  connection exchange as a state machine.
- `camera`, `hls`, `server` — PTZ requests per camera, ffmpeg arguments and
  output paths, HTTP paths and PTZ replies.
- `stream` — what to do when a camera's RTSP stream ends.
- `laws` — properties of the lookups and of the encoding.
- `encoding`, `text` — Base64/SHA-1 access and small string helpers.

`app/` is the program: configuration file loading, RTSP reading, HTTP
requests, the ffmpeg child process and the web server.
