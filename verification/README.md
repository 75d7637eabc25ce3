# condex

A terminal chat client for a chat-completion endpoint. The library in `src/`
holds what the program decides, with contracts checked by Verus; `app/` is
the program around it (terminal, HTTP, threads, drawing).

- `src/llm/types.rs`: messages, replies and error bodies of the endpoint.
- `src/llm/client.rs`: the conversation history, how a reply or a background
  result enters it, and the errors of an exchange with their texts.
- `src/widgets/`: the input box (typing, deleting, line breaks), the
  conversation view (which rows are shown), the scrollbar, messages and title.
- `src/controller.rs`: how a terminal event or a reply changes the state and
  what the program is asked to do.
- `src/events.rs`: the events of the program.
- `src/text.rs`: UTF-8 widths, lines as `str::lines` splits them, decimals.
