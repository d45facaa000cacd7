# sqlite_repros

Programs that reproduce defects of `sqlx-sqlite-toolkit` and `tauri-plugin-sqlite`. Four of them
perform a fixed script against the real crates, probe what happened, and end with a verdict,
`BUG CONFIRMED: ...` or `BUG NOT REPRODUCED: ...`. The fifth, `acquire-control`, is a control
experiment: it ends by saying how its three probes are to be read.

`src/` holds what the programs decide and print, verified with Verus. A program is a state
machine (`program::Program`): `action` says what to do, `advance` takes up what came of it and
gives back the lines to print. The contracts fix every action, every transition and every line.
For every program it is proved that each run ends, that until then some event can come of the
pending action, and that a finished run has performed its whole script, unless it is `window-close`
and the observing window did not report that it observes. Of the four programs with a verdict it is proved that

- the last line is the verdict, which follows from the named probes alone;
- the verdict tells a database with the defect from one without it, and what the probes print on
  the way is what such a database answers.

Of `acquire-control` it is proved that on a pool which hands the writer out exactly while nobody
keeps it, the probe of the held writer times out and the other two report the pool idle.

`app/` performs the actions: it opens the database and the windows, waits, and prints.

Each defect was found at one revision of
[silvermine/tauri-plugin-sqlite](https://github.com/silvermine/tauri-plugin-sqlite), which holds
all of the crates. To see it, build against that revision; the interfaces of the three differ, so
no single build runs all programs.

| Program | Defect | Revision |
|---|---|---|
| `dropped-transaction` | a dropped interruptible transaction stays open on the write connection | `240eb77` |
| `acquire-control` | none; control experiment for the probe that the first program uses | `240eb77` |
| `clone-observation` | observation enabled on one clone misses writes through its siblings | `e1b3836` |
| `reobserve` | enabling observation again ends the streams of earlier subscribers | `e1b3836` |
| `window-close` | closing a window ends observation that the Rust side enabled | `b31142e` |
