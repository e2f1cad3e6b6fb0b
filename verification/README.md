# dqn

A terminal music downloader: search two music platforms, mark songs, download
them, log in by scanning a code.

`src/` is the verified core. It holds the application's state and every rule
about it, as functions with contracts that Verus proves; what has to be done
outside is handed back as a request. `app/` draws the screen, talks to the
network, reads and writes files, and looks for codes in image files. `tests/` runs the core together with the
crates that it calls.

| Module | What it is about |
| --- | --- |
| `text`, `model`, `sizes` | characters, decimal numbers, views, numbers of bytes |
| `raster`, `qr` | images, QR codes, their rendering as half blocks |
| `music`, `storage` | songs, qualities, logins, where they are stored |
| `download`, `job` | file names, and a download step by step |
| `app_model` | the state as mathematics, and what each operation makes of it |
| `app`, `search`, `queue`, `account`, `messages`, `login`, `keys` | the state and its operations |
| `layout`, `ui` | what is shown, and where |
| `*_laws` | what holds of all of it, whatever the order of keys and messages |

Time is read at the edge: a function whose name ends in `_at` takes the time,
and the one without the ending reads the clock and calls it.

Downloads go to the folder `Downloads` beside the executable.
