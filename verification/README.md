# video_summary_bot

A command-line video summariser (`vsb`): subtitles are fetched with yt-dlp and summarised
by a language model, with a small virtual-machine monitor beside it for running agents in
an isolated guest.

The library in `src/` is written in Verus. Its functions carry contracts that Verus
proves, except the few small trusted wrappers around calls into std and outside crates
(marked `#[verifier::external_body]`, plus one `assume_specification`), whose contracts
are assumed from those crates' documentation and source. The public proof functions named
`law_*` state the properties that hold across calls.

- `src/vmm/` — guest memory, the bzImage loader and boot parameters, the boot state machine
- `src/devices/` — the virtio-mmio register file and the devices behind it
- `src/api/` — the VM store's rules: names, lifecycle transitions, console buffers
- `src/crawler/`, `src/cli/` — subtitle parsing and text assembly, prompts, command decisions
- `src/network/llm_proxy.rs` — the upstream URL, key choice and header forwarding of the proxy
- `src/ipc/` — framing of the guest-agent protocol
- `app/` — the program around the library: argument parsing, files, processes, HTTP, sockets
- `tests/` — tests of the library on concrete values
