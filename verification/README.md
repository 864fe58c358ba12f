# aib

A browser-automation engine for agents: it launches Chrome or Edge, drives
pages over the Chrome DevTools Protocol, renders accessibility snapshots,
records and replays network traffic and traces, and runs an LLM-driven
tool-calling loop over all of it.

`src/` is the verified core, written in Verus. Every function there carries
a contract that Verus proves: the tool surface and how a tool call is
planned and answered, the agent's step loop (budgets, nudges, snapshot
pruning, screenshot routing), snapshot and trace rendering, YAML steps and
how action summaries read back as steps (for any text quoted with the
`"`, `\`, newline, tab and carriage-return escapes; the summaries quote
with Rust's `Debug`, which writes exactly that for printable ASCII text
with newlines, tabs and carriage returns), cassette replay and request
correlation, the page registry, CDP message routing, command bookkeeping
and pipe framing, browser discovery and the launch command line. The laws
that relate several operations are public proof functions next to the code
they speak of.

`app/` is the runtime around it: files, processes, the network, JSON and
YAML encodings of the core's types, error messages, floating-point motion,
the browser session with its console, network, screencast and training
captures, and the asynchronous loops that hand each outcome back to the
core. The page scripts the session injects (`walker.js`, `resolve.js`,
`seeded_random.js`, `virtual_clock.js`, `train.js`) are read from a
directory at startup.

`tests/` exercises the core on concrete values.
