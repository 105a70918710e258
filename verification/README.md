# win_inet

A small wrapper around the WinINet HTTP client API of Windows, meant for
higher level HTTP clients.

- `src/` is the verified library: the status and access-type codes, the
  `INTERNET_BUFFERS` records, the flags of a request, the outcome of every
  API call and of every poll of an asynchronous request, the calls that close
  each kind of handle, and the text of a received body.
- `app/` holds the calls into `wininet` themselves (`WinINet`,
  `WinINetConnection`, `WinINetRequest` and its `Future`), the C layouts of the
  records, and the conversions of strings to the pointers the API takes.
- `tests/` exercises the library.
