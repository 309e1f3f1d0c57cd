# axum-hotreload

Hot reload for axum. Save a file, the next request hits new code, and the browser refreshes
itself. The state of the host is preserved and its socket is never re-bound.

The library in `src/` takes the decisions and is verified with Verus. The crate in `app/` performs
them: it runs cargo, touches files, opens dylibs, watches directories and serves requests.

| module     | what it holds                                                             |
|------------|---------------------------------------------------------------------------|
| `artifact` | names and places of the dylib, its staged copies, and the sweep of these   |
| `rebuild`  | the steps from `cargo build` to a loaded generation                        |
| `live`     | the generation that serves, the record of reloads, the steps of a reload   |
| `builder`  | the builder and the reloader that it leads to                              |
| `startup`  | the steps from a builder to a running reloader                             |
| `watcher`  | which events call for a rebuild, and the debounce loop                     |
| `status`   | the status page                                                            |
| `error`    | the errors and their messages                                              |
| `paths`    | what the library uses of `std::path`                                       |
| `text`     | replacing, searching and writing numbers                                   |
| `example`  | a page that counts its visits                                              |

The functions named `law_*` state what holds of the library as a whole: that a reload is all or
nothing, that requests finish on the generation they started on, that a burst of changes is one
rebuild, and so on.
