# airtype_lib

AirType turns speech into text at the cursor: a global hotkey records from the microphone,
the recording is transcribed by a cloud service (RunPod's ivrit-ai Whisper deployment for
Hebrew and, by default, English; OpenAI for English on request), and the text is pasted
where the user is typing.

`src/` is the library, written in Verus: every decision the application takes is a
function with a contract, proved by Verus.

- `hotkeys`: shortcut strings and key names, the hold/toggle hotkey state machine, the
  modifier-only hotkey tracker, and which hotkeys to register; `hotkeys::laws` states the
  properties that span several events or functions (hold and toggle round trips,
  written shortcuts and modifier names reading back, case-insensitive parsing);
  `hotkeys::key_names` goes through the key table to show which key names read back.
- `session`: the recording phase and session number, and what a hotkey or a job status
  means in each phase.
- `transcription`: choosing the service, WAV framing, the RunPod job protocol and its
  output, OpenAI's replies and Realtime events, and the Hebrew filler-phrase filter.
- `audio`, `history`, `logs`, `settings`, `paths`, `models`, `injection`, `json`: the
  sample buffer, the bounded transcription history and log buffer, the settings, file
  locations, model files, typing pauses, and a JSON tree.

`app/` is the desktop application around the library (tauri windows and tray, the
microphone, the keyboard hook, the clipboard, HTTP and WebSocket clients, files on disk).
It carries out what the library decides; the few checks it makes itself sit next to the
I/O they guard (nothing was recorded, the service returned no text). Settings, API keys
included, are stored as plain JSON in `settings.json` under the configuration directory.

`tests/` runs the library on concrete values.
