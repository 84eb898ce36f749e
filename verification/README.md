# ytconvertv2

`ytconvertv2` extracts audio and video from YouTube videos and playlists by
driving [`yt-dlp`](https://github.com/yt-dlp/yt-dlp) and
[`ffmpeg`](https://ffmpeg.org/): links are looked up, exports are queued as
tasks, and each task downloads, converts and names its files.

The crate is split in two:

- `src/` is the library, written in Verus and verified. It holds the data the
  application works on (videos, playlists, export settings, tasks and the task
  queue), the state machines of the application and its two pages (each takes
  a request and answers with the new state and the actions to carry out), the
  stored configuration, the error list with its fuzzy search, the steps of a
  video's export and the step function that runs a playlist's export, and the
  decisions taken while yt-dlp, ffmpeg and the application
  update themselves. Every public function states its result in its contract;
  the laws the library keeps (the queue runs tasks in the order they were
  submitted, file names are always valid, durations and colours read back from
  their text, the stored configuration reads back, export settings keep a
  clean title whatever changes are made, search results reorder the
  errors) are proof functions named `law_*`.
- `app/` is a command-line program around the library: it reads and writes
  the configuration file, runs yt-dlp and ffmpeg (and, for a playlist, feeds
  their outcomes to the library's step function in a loop), downloads thumbnails and
  updates, and hands the results back to the library's state machines.

Tests under `tests/` exercise the library on concrete values.
