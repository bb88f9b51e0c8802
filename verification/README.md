# chronos

Chronos is a local-first screen context engine: a daemon captures the screen at a
fixed interval, keeps recent frames in RAM, asks a local vision-language model
(Ollama) what each screenshot shows, and stores the answers in SQLite, where the
command line can query them.

## Layout

- `src/` is the verified library (Verus). Its functions carry contracts that Verus
  proves, apart from the small trusted wrappers around outside crates and the clock,
  whose contracts are assumed (see below):
  - `ring_buffer`: the bounded in-memory frame buffer (oldest frame evicted first);
  - `capture_loop`: the capture thread's decisions as a state machine (capture, send
    with back-pressure, interruptible wait, shutdown);
  - `capture`: primary-monitor choice and PNG framing of screenshots;
  - `pipeline`: the bounded retry schedule with exponential back-off;
  - `inference`: the Ollama request (URL, JSON body, base64 image) and its error mapping;
  - `log_record`, `ulid_text`, `time_text`: the text columns of stored logs;
  - `handlers`: date parsing, query planning, the report texts, the database location;
  - `cli`: the command-line grammar;
  - `text`, `error`, `models`: shared strings, errors and data types.
- `app/` is the program around it: `main`, the async runtime, SQLite access, the HTTP
  round trip, screen grabbing and printing.
- `tests/` exercises the library on concrete values.

Calls into outside crates (`chrono`, `ulid`, `base64`, `image`, `reqwest`, `dirs`,
`serde_json`) and a few standard-library calls (the system clock, `Arc::clone`,
`String::push`) are made from `src/` through small trusted wrappers
(`#[verifier::external_body]`), whose doc comments say what is assumed of them.
