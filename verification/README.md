# xcelerate

A Chrome DevTools Protocol client whose decisions are verified with Verus.

- `src/` is the verified library: the JSON model of protocol messages
  (`json`), the commands it sends (`commands`), command ids, envelopes and
  the routing of answers and events (`connection`), how replies are read
  and their errors worded (`reply`), the standard base64 form that decoded
  payloads come in (`encoding`), the decisions of pages,
  elements and browser launches (`page`, `element`, `browser`), the binary
  patcher and the process registry (`stealth`), and the errors (`error`).
- `app/` is the asynchronous side: WebSocket and HTTP transport, processes,
  timers, files and the C ABI. It performs the actions that the library
  decides and hands it what it observes.
- `tests/` runs the library on concrete values.
