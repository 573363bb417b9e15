# shapoist

The verified core of the Shapoist rhythm game client, written in Verus.

- `src/` — the library: its functions carry contracts that Verus proves,
  except the few marked `external_body`, which wrap the system clock and the
  random number generator and whose contracts are taken on trust:
  - `timer` — the pausable stopwatch, with its laws (a fresh start counts
    from the start, a restart keeps the time already run, `set` adds its
    delay to every reading);
  - `judge` — the hit windows of tap and slide notes, misses, combos and the
    tally of judgements;
  - `language`, `text` — texts looked up in the language files, error
    messages with their built-in fallback, random tips;
  - `system_function`, `init`, `window`, `button`, `edit_page` — which logs
    to delete, which dropped files are compressed charts, which charts a page
    of the chart browser shows, and small helpers;
  - `command` — the chart editor's command language: reading a command from
    its text, and what each command does to the project (selection,
    deletion marks, the editor's time, new notes, shapes and judge fields,
    changes of attributes, defaults), with the history that lets earlier
    commands be repeated;
  - `page` — the page's handling of the events of its components: windows,
    animation timers, the undo list of the chart editor and the project
    paths; what must be done outside comes back as a list of effects;
  - `play` — when play starts and ends, which note a key or a touch judges,
    and when an unhit note becomes a miss;
  - `note`, `shape`, `setting`, `shader`, `error` — the values that the editor,
    settings and components exchange.
- `app/` — the program around it: reading and deleting files, unpacking
  charts, and showing a tip.
- `tests/` — tests of the library on concrete values.
