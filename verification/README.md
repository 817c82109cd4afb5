# Render service

A service that renders sequences of Online Sequencer to audio files. It drives a browser that
plays the sequence, takes the audio from the page, and converts it with ffmpeg.

- `src/` is the logic, verified with Verus: what a request is answered, what a render does next,
  what clients are told, and how addresses, scripts, commands and file names are put together.
- `app/` is the program around it: the HTTP server, the browser driver, processes and files.
- `tests/` runs the logic on examples.

## Use

ffmpeg, chromedriver and Chromium or Chrome must be installed. The service listens on port 3154.

- `POST /render/<id>/start` asks for the render of a sequence. The answer is 302 if the audio
  files are there, 404 if there is no such sequence, and 200 if the render is on its way.
- `GET /render/<id>/poll` is a stream of events. Each holds the number of the status, a `|`, and
  the fraction that has been played.
- `GET /renders/<id>.<ogg|mp3|wav>` is an audio file.

At most as many renders run in parallel as the option `--renders` says. A render takes a slot when
it leaves the queue and gives it back when it ends, however it ends.
