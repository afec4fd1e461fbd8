# gnubg-engine-server

GNU Backgammon as an analysis daemon that speaks the Backgammon Engine Protocol:
JSON-RPC 2.0 over stdin and stdout, with evaluations by `libgnubgapi`.

The decisions of the daemon are a library in Verus, under `src/`. Its functions
have contracts that are proved, but for the few that call other crates and the
standard library, whose contracts are trusted (see below). What Verus cannot take
stands around it in `app/`: the streams, the native library, the engine thread,
and the floating point.

| Modules | What they decide |
|---|---|
| `engine`, `describe`, `options`, `json`, `methods` | the levels, which methods each answers, the options of a rollout, and the engine's description of itself |
| `evaluation`, `dispatch` | what is done with a message, which native call a request makes, and what it is answered |
| `mapping`, `moves`, `clock`, `ffi` | which native number stands where in a payload, how moves are ranked, and which alternative a played move is |
| `notation`, `order`, `text` | how a move is written, and when two ways of writing it are the same |
| `request_log` | which lines are logged of a request, and when |
| `config` | the command line, where the files are, and the logging switch |
| `level_laws`, `notation_laws`, `move_laws`, `evaluation_laws`, `startup_laws` | what holds of all of this together |

## Levels

| Level | Answers |
|---|---|
| `0ply`, `2ply` | everything |
| `1ply`, `3ply` | positions and moves; odd plies leave the opponent on roll at the leaves and bias cube equities |
| `4ply` | positions and cube decisions; scoring a full move list would take too long |
| `rollout` | positions; options: `trials`, `cubeful`, `varianceReduction`, `chequerPlies`, `cubePlies`, `seed`, `truncate`, `truncatePlies` |

Plies are counted gnubg's way: 0-ply is the raw neural net.

## What is trusted

The library relies on stated contracts for `String::push`, the `Debug` format of
strings, the error texts of `serde_json`, and the clock and RFC 3339 format of
`time`. Each stands in a small function whose doc comment says what it claims.
