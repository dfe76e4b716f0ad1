# 夜局 · lark-arena

An AI werewolf bot for Feishu group chats, with its rules verified in Verus: boards of 9 to 12
players, private role cards, night moves, a sheriff election, last words, the shots of the hunter
and the wolf king, and AI players driven by an OpenAI-compatible model.

## Layout

- `src/` is the library. Every function states in its contract what it returns or changes, over a
  mathematical view of the table, and Verus proves it.
  - `werewolf/` holds the rules (`lobby`, `night`, `election`, `day`, `flow`, `tally`), the cards,
    the plan of what happens next (`plan`, `settle`), the buttons (`clicks`), the AI players
    (`view`, `llm`, `asking`, `answers`, `attempts`) and the laws of the game (`laws`,
    `rule_laws`, `deal_laws`, `order_laws`, `end_laws`, `speech_laws`, `view_laws`,
    `secrecy_laws`, `handler_laws`, `progress_laws`).
  - `bot/` holds the room: commands, the lobby, repeated events, where a press goes.
  - `feishu/` holds the parts of cards and the events.
  - `config`, `llm`, `server` and `storage` hold what is decided around configuration, the
    conversation with a model, the webhooks and the stored records.
  - `values` reads JSON from bytes and writes it as text.
  - `json`, `text`, `words`, `assoc` and `seqs` are the ground the rest stands on.
- `app/` is the program around it: the Feishu client, the webhooks, the model client, the redb
  file and the loop that runs a table.
- `tests/` plays games and presses buttons through the public interface.

## Configuration

Set in the environment or in a file `.env`; the environment wins.

| Variable | Default |
| --- | --- |
| `FEISHU_APP_ID`, `FEISHU_APP_SECRET` | required |
| `FEISHU_VERIFICATION_TOKEN`, `ALLOWED_CHAT_ID` | none |
| `BIND_ADDR` | `0.0.0.0:8080` |
| `OPENAI_API_KEY` | none: no AI can be added |
| `OPENAI_BASE_URL` | `https://api.deepseek.com` |
| `OPENAI_MODEL` | `deepseek-v4-flash` |
| `OPENAI_REASONING_EFFORT` | `xhigh` |
| `LARK_ARENA_DB_PATH` | `arena.redb` |

## Commands

`/wolf <command>`, or mention the bot: `join`, `leave`, `start`, `reset`, `help`, or in Chinese
`加入`, `离开`, `开始`, `重置`, `帮助`. The lobby card has the same, and adds or removes AI players.
