# kvlm

The logic of the `kvlm` serving tool as a Verus-verified library, with a
thin command-line front end around it.

- `src/` is the library. Its functions carry contracts over a
  mathematical model (sequences of characters, integers, maps) that
  Verus proves, resting on a few trusted wrappers around outside calls
  (`String::push` and goish's `strings::ToUpper`, in `text.rs`), whose
  contracts are stated, not proved:
  - `model/`: the serving catalog with every shipped model's figures,
    KV-cache arithmetic per attention layout, GPU lookup, and the text
    of `model ls|show|vram`, including the cells of the variants table.
  - `flamegraph.rs`: folded stacks into a frame tree, frame weights,
    ordering, colors and escaping.
  - `metrics.rs`: vLLM Prometheus text into samples and the figures they
    feed.
  - `collect.rs`: the step functions of `profile run` (preflight, probe
    choice, capture phases) and of `profile run <tool>`.
  - `capture.rs`: graph and kernel analysis of a capture, and the step
    function of the concurrency sweep and pressure probe.
  - `runs.rs`, `tuning.rs`, `deploy.rs`, `driver.rs`, `transport.rs`:
    run numbering and references (a run resolves only to a directory
    that exists), flag deltas and goals, the `apply` and `up --mode`
    guards, pod sizing and variant choice, driver requests and the step function of a RunPod
    `up`, ssh/scp argument lists.
  - `text.rs`, `arith.rs`: the string and integer primitives the rest is
    stated over.
- `app/` is the `kvlm` program for `model ls|show|vram`,
  `profile metrics|flamegraph` and `run ls|show`: arguments, files, and the estimates
  computed in floating point (VRAM totals, decode speed, SVG layout,
  metric rates). The commands that drive a remote target (`up`, `down`,
  `run`, `tune`, `apply`, `profile run`) are not wired up there: their
  decisions are the step functions above, and the loop that performs
  each action over ssh is not part of this crate.
- `tests/` runs the library on concrete values.

Public proof functions (`lemma_*`) state the library's laws: KV bytes are
monotone in the context and clamped by the model's cap, every shipped
model has a KV layout and flat layouts are marked estimated, the catalog
stays sorted by rank and finds what was registered, decimal text reads
back as its number, goals and run names read back as written, escaped
names hold no markup, the support matrix agrees with per-GPU resolution,
a RunPod pod is recorded before it is polled, a busy server is never
load-tested, nothing is written before the preflight passes, and a
failed reach or preflight ends a run with no further action.
