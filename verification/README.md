# vulkan_bridge

The rules of a cross-GPU Vulkan bridge in a Wayland compositor, as a verified library: which
policy startup follows, how blocks of the configuration merge, what a frame's clocks amount to,
how an output's buffer modifiers are negotiated and rolled back, how a kernel request is probed,
and what the pacing report and its control socket say.

The library works on plain values and performs nothing. `app/` reads the environment and the
files, runs the event loop, and makes the GPU and KMS calls.

| Module | What it decides |
| --- | --- |
| `config` | the `vulkan-bridge` section: values, schema, merging |
| `document` | the configuration as a whole, and its includes |
| `kdl` | KDL documents as plain trees |
| `bridge_config` | the policy of startup: block or environment |
| `pacing` | the measurements of one output |
| `report` | the lines of the pacing report, and its windows |
| `control` | the commands of the control socket, and their answers |
| `writer` | the order in which the report's file is opened, headed and filled |
| `json` | JSON objects and lines |
| `transfer_formats` | what is remembered of a negotiation, restoration and rollback |
| `negotiation` | one round of a negotiation |
| `kms_probe` | the diagnostic probe |
| `text`, `time` | texts, durations and the wall clock |

What lies outside the proofs is declared where it is used: knuffel's parser in `kdl`, serde_json's
objects in `json`, a few functions of std in `text` and `time`. Each declaration says what is taken
on trust.
