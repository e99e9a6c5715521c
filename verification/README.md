# ngx_http

HTTP requests of nginx modules: checked views, header builders, request bodies, module contexts,
delayed processing, temporary files, variables, subrequests and upstream callbacks.

Nginx's objects are plain values here. An address is a `usize`, a nullable and aligned pointer is
a `Pointer<T>`, and `NativeState` holds the requests, pools, configurations and upstreams that
addresses lead to. A pool hands out the blocks it is given, so a test can refuse any allocation.
What only nginx can do comes out as an `NginxCall`, or as a pending value with a `finish` method
that takes nginx's answer. Code that runs between two steps, such as the cancellation of a context,
is left to the caller, who hands back how it ended.

- `src/` is the verified library. `native` and `buffer` model nginx's objects; `request` holds
  views, methods, headers, bodies, contexts and what keeps them sound, continuations and temporary
  files; `upstream` holds upstream states, URLs and callbacks; `variable` and `subrequest` stand by
  themselves. Proof functions whose names start with `law_` state what holds across calls.
- `tests/` runs the library on concrete values.
- `app/` adds a future for awaited subrequests, and `Display`, `Error` and `Iterator` impls.
