# net-manthan

The shared logic of a download manager (the `vayuget` daemon, its terminal
client and its window), written in Verus and proved against its contracts.

## Layout

- `src/` — the verified library:
  - `download_manager.rs`: the daemon's scheduling: which download runs, which
    waits for a slot or for its information, what each RPC command is answered,
    and when the daemon stops by itself.
  - `rpc/`: length-prefixed framing (`message_codec`), the messages and how the
    server screens and answers a call (`messages`), the endpoint settings.
  - `download.rs`: the values that describe a download.
  - `ui/`: the window's state machines: input fields and their rules, the
    add-download dialog, notices, title bar, and the window itself, each
    answering a message with the command its owner must carry out.
  - `logger.rs`, `config.rs`: logging and daemon settings, and the log filter.
  - `conversion.rs`: timestamps, spans and statuses in their protobuf form.
  - `pretty_print.rs`, `decimal.rs`, `text.rs`: terminal layout and text helpers.
- `tests/` — tests of the library on concrete values.
- `app/` — the unverified outer layer: installing the log subscriber, the
  Unix-socket client and server, bincode encoding of messages, and the
  command-line settings.

The daemon's main loop and its periodic update (advancing the running
downloads, printing progress, starting the next queued download, stopping
when nothing is left) are not here: they drive the download engine, which is
not part of this crate. Each decision they take is a verified method of
`download_manager::DownloadManager` (`record_progress`, `retain_running`,
`next_from_queue`, `should_shut_down`, `prints_progress_now`).
