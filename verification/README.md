# rust7

Verified core of an S7 (ISO-on-TCP) client for Siemens PLCs.

- `src/` — the library, verified with Verus: big-endian helpers (`codec`),
  the error type (`error`), TPKT/COTP framing and the incoming-header check
  (`iso`), the userdata request envelope (`userdata`), the TIS TIMEMEAS
  codec (`tis`), the client state and connection handshake (`client`), and
  the chunked read / write jobs (`transfer`).
- `app/` — the socket around it: connecting, sending the telegrams that the
  library builds, handing the answers back, timing, and the conversion of
  cycle times to milliseconds.
- `tests/` — tests of the library on concrete telegrams.
