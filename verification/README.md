# agent-rs-web

The web front end of the agent-rs platform: sign-up and login, a library of
uploaded documents, and conversations whose answers stream in while the agent
writes them.

- `src/` is the verified library. It holds every decision as a function on plain
  values: what is asked of the store, what a reply comes to, what the agent is
  sent, what the browser shows. Each function carries its contract; the laws that
  span several of them are public proof functions at the end of each module.
- `app/` is the program around it: axum, Leptos, diesel, tonic, the S3 client and
  the browser's DOM. It reads requests, runs statements, calls services and hands
  the replies to the library. The gRPC client that `app/pb.rs` takes in is
  generated from the agent's `agent.proto`; a build that has generated it sets
  `--cfg agent_proto`, and one that has not treats the agent as unreachable.
- `tests/` runs the library, with the outside crates it calls.
