# stream_downloader

Watches users of a streaming site and records their streams while they are
online. A backend keeps the users and their states; ffmpeg writes the
recordings.

The decisions of the two loops that the program runs are made in the library
under `src/`, and proved there with Verus:

- `status` - the status loop: whom to look up, start and stop, and what to tell
  the backend. `status_laws` states what holds over whole rounds.
- `manager` - the downloader: which recording to look at, start, stop or drop.
  `manager_laws` states what holds over whole rounds.
- `reports` - what the reports of the downloader change about users.
- `page`, `retry` - what the page of a user says, and when to ask for it again.
- `downloader`, `cleanup` - one recording, its files, its command and its end.
- `streamer`, `config`, `clock`, `text` - users, messages and addresses,
  settings, time stamps, and texts.

Neither loop does anything itself. Each says what is to be done next and is told
how that ended. The program under `app/` does it: requests, processes, channels,
signals and pauses. Before each step it asks the loop whether it can go on, and
stops with a panic if it cannot.

Outside crates that the library calls (`regex`, `serde_json`, `jiff`) stand
behind small functions whose contracts are trusted; each says above it what it
claims of the outside function.
