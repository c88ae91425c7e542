# dyt

The verified core of DictateYourTerms, a push-to-talk speech-to-text pipeline:
a persistent daemon that keeps a whisper model loaded and answers
`POST /transcribe`, and a client that records the microphone, sends a WAV file
and copies the transcript to the clipboard.

`src/` is the library, proved with Verus:

- `config`: the daemon configuration types and their defaults.
- `wav`: reading WAV payloads with `hound` (header, and 16-bit integer PCM),
  and writing the client's mono 16 kHz 16-bit PCM WAV.
- `server`: the `/transcribe` handler's decisions (admit or answer 400, 200
  with the transcript, 500 on inference failure) and the listen address.
- `provider`: choosing the inference backend named by the configuration.
- `transcript`: joining the model's segments into one trimmed transcript.
- `paths`: expanding a leading `~/` in configured paths, and joining paths as text.
- `transport`: the client's endpoint and its reading of the daemon's answer.
- `capture`: ring buffer sizing and the dropped-sample warning.
- `text`: decimal rendering used by the above.

`app/` holds the programs (daemon, dictation client, smoke test, fixture
recorder): audio capture, floating-point resampling and mixing, HTTP, the
clipboard, whisper.cpp, and locating, reading and parsing the TOML file. The
program acts by the name it is run under: `dyt-daemon`, `dyt-smoke`,
`dyt-record-fixture`, or `dyt --record` for the dictation client.
