# nih_plug_auv2

The decisions of an AUv2 (Audio Unit version 2) plugin wrapper, written in Verus: every function
under `src/` is proved to meet its contract, and the modules that end in `_laws` state what holds
between functions.

- `src/` is the library. It works on plain values: samples, rates and parameter values are the bit
  patterns of floats, and addresses of the host are numbers.
- `app/` is what stands around it: the functions that a host calls, the host's frameworks, and the
  traits that a plugin implements.
- `tests/` runs the library on concrete values.

| Modules | What they decide |
| --- | --- |
| `plugin`, `codes`, `metadata`, `version`, `class_info` | What a plugin says about itself, and how its state is kept |
| `layout`, `format` | Which buses and formats a host can have |
| `params`, `param_info`, `automation` | What hosts know about parameters, and how values change |
| `property`, `property_laws`, `listeners` | Reading and writing properties |
| `event`, `sort`, `queue`, `midi`, `context` | Events, their order, and MIDI |
| `render`, `render_laws`, `cycle`, `cycle_laws`, `buffers`, `transport` | Render cycles, blocks, samples and the transport |
| `wrapper`, `editor`, `registry`, `dispatch`, `host` | A unit, its editor, and how hosts find both |

What is taken on trust stands in `queue`: three calls of `crossbeam`'s `ArrayQueue`.
