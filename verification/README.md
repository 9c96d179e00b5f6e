# workstation_app

The decision core of a weather-radar workstation, verified, and the window
around it.

`src/` decides what is on screen and why: which frames the timeline keeps, when
a picture is current and when one is asked for, how files and playlists are
loaded, how a live session and its feed are followed, what a pane says of its
age, its filter and its source, and what becomes of every click. Every function
carries a contract over a ghost view of the state it touches; the laws that hold
across functions are the public `law_*` proof functions.

| Where | What |
|-------|------|
| `frame`, `history`, `clock`, `panes`, `display` | frames, the timeline, generations, pictures and playback |
| `workspace`, `choices`, `tilt`, `follow`, `vrot`, `sweeps` | products, tilts, following, measuring, revealing |
| `session`, `planner`, `sequence`, `install`, `sites` | loading, playlists, live sessions, placing radars |
| `loop_export`, `exports` | exporting the timeline as a loop |
| `age`, `moment`, `live`, `readouts`, `probe`, `canvas` | what the panes and lines say |
| `bar`, `toolbar`, `windows`, `placefile` | controls, clicks, windows, dropped files |
| `registry`, `catalog`, `theme`, `settings` | the settings that exist and what they reach |
| `text`, `paths`, `bytes`, `find` | text, paths and searching |
| `app` | the workstation and its invariant |

What is taken on trust is small: the calendar arithmetic and RFC 3339 text of
`chrono`, and a few functions of the standard library on text. Each stands
behind a function whose comment says what is claimed of it.

Numbers that only floating point can carry are written out, or handed over as
bit patterns, before they reach the core.

`app/` is the window: arguments, files, workers and drawing with `eframe`.
