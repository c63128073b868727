# usage_monitor

The decision making of a taskbar widget that watches the usage of a metered
service, verified with Verus, and the program around it.

## The library (`src/`)

The library holds the state of the widget and decides what every event does to
it. It does no work of its own: a decision changes the state and returns a list
of actions, which the program performs in order.

| Module | What it holds |
| --- | --- |
| `models` | usage figures; percentages as the bits of a double, compared exactly |
| `text` | numbers, searches, replacements and joins |
| `json`, `settings` | the settings file, recovered field by field where a value is bad |
| `state` | the state, the actions, what is saved of the state |
| `geometry`, `layout` | scaling to the DPI, where windows go, where everything is drawn |
| `panel`, `panel_window` | the panel's buttons, its window and its messages |
| `messages`, `widget` | what messages stand for, and what they do to the widget |
| `commands`, `menu` | the context menu and its commands |
| `poll` | answers, failures, retries, watching the credentials |
| `update` | searches for newer releases and their installation |
| `sections`, `captions`, `color`, `view` | what the windows show |
| `startup`, `launch` | starting with the system, the first state and the first work |
| `laws` | what every event keeps |

Lengths are proved not to overflow for any DPI up to `MAX_DPI` and coordinates up
to `MAX_COORD`. The offset of the widget may be any number, as long as the place that
it leads to fits in 32 bits. The program tests all of this before it calls the library.

## The program (`app/`)

`driver` hands events to the library and performs its actions through two
interfaces: `system` for windows, drawing and the registry, which `win32` and
`gdi` implement, and `services` for phrases, polls, updates, themes, tray icons and
the taskbar. Figures in floating point stand in `figures`.
