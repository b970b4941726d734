# codemux

A terminal multiplexer for coding agents, local and over SSH: every agent is a
pane, a tab or a row of the navigator, and one key away.

The library under `src/` holds what the program decides and computes, and Verus
proves it against its contracts. It does no input or output. `app/` is the program
around it: the terminal, the processes, the workers and the loop that hands what
happens to the library and does what the library answers. `tests/` runs the
library on concrete values, with the crates it calls linked in.

## Layout of the library

| Modules | What they hold |
|---|---|
| `runtime`, `frame`, `startup` | the event loop as a state machine: events, what is done between them, the terminal at start and end |
| `agent`, `nav`, `screen` | agents, the navigator over them, the emulators of their terminals |
| `keys`, `keymap`, `dispatch` | keys, bindings, the prefix key |
| `mouse`, `capture`, `selection` | gestures, who gets the mouse, copied text |
| `spawn`, `attach`, `outcome`, `fuzzy`, `meta` | bringing up agents, searching directories, news about agents |
| `paint`, `render`, `render_pane`, `help`, `failure`, `label`, `style` | what a frame consists of |
| `layout`, `geometry`, `term`, `text` | where things go, and the characters that are written |
| `nav_laws`, `render_laws`, `runtime_laws`, `identity_laws` | what holds across functions |

## What is taken on trust

Calls into other crates stand behind small functions whose contracts are believed:
the terminal emulator of `vt100` (in `screen`), splits and borders of `ratatui` (in
`layout` and `paint`), the width of text of `unicode-width` (in `label`), and
`base64` (in `term`), besides three functions of the standard library (in `text`
and `label`). Their doc comments say what is claimed of each.
