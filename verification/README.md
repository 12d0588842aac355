# deepseek-work

A desktop shell for the DSH web interface. It extracts a bundled runtime
(Node.js and DSH), keeps one `dsh web` process running and shows the page that
the process serves.

`src/` holds every decision of the shell, verified with Verus. What the disk,
the process and the user say comes in as plain values, and what is to be done
goes out as plain values. Work that goes back and forth with the disk is a
sequence of steps: each step is a value with one method, which takes the answer
and returns the next step.

| module | decides |
| --- | --- |
| `runtime`, `removal`, `copying`, `mirror`, `stale` | how the bundled runtime gets to the disk |
| `profile`, `manifest`, `json` | how the market plugin gets into the web profile |
| `launch`, `output` | how DSH is started and what its output means |
| `service` | what the commands do to the one process |
| `shell`, `script` | the tray, the window, and the script for the market page |
| `log`, `failure`, `effect`, `command`, `place`, `platform`, `text` | wording, commands, paths and text |

Functions named `law_..` state what holds of several functions together.

Nothing is proved of `serde_json` and `chrono`. Each call into them stands in a
small function of `json` or `log` whose comment says what is taken for granted.

`app/` is the Tauri application around the library. It reads, writes, spawns
and draws as the steps say. Paths are put together there: it joins the parts of
a place, and gives the copy of a file the file's own name.
