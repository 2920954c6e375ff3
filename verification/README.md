# slack_mcp

An MCP server that reads and writes Slack through the Chrome DevTools
Protocol of the Slack desktop app.

- `src/` is the verified library:
  - `json` — the JSON values that the server reads and writes, with their
    mathematical model;
  - `text` — character-level string functions (escaping for JavaScript
    string literals, trimming, decimal numerals, previews);
  - `scripts` — the JavaScript that each tool runs in the Slack page;
  - `tools` — the tool definitions, argument reading, and what each tool
    makes of its script's result;
  - `mcp` — what every JSON-RPC request is answered;
  - `cdp` — request numbering and reply matching on the DevTools
    connection, choosing the Slack page among the debugging targets, and the
    HTTP exchange that lists them.
- `app/` holds the program: the stdin/stdout loop, the WebSocket and TCP
  connections, and the conversions between the library's JSON values and
  `serde_json`.
