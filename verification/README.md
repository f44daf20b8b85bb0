# ncino_sandbox

Runs JavaScript edge functions in Deno isolates on a pool of worker threads.

- `src/` is the verified library: the pool's bookkeeping (worker ids, the
  workers in flight, draining), the session that orders a module's bootstrap
  and a handler's run, the decision of how a polled response settles, the
  task that serves one worker on a thread, and the answer a drained worker
  gives its caller. Each public function has a contract; the `*_laws`
  modules prove the properties that span several calls.
- `app/` holds the Deno runtimes, the threads, channels and ops: it performs
  the engine work the library asks for and hands the results back.
- `tests/` runs the library on concrete values.
