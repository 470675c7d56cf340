# rs_algo

An algorithmic trading bot and the WebSocket server that connects bots to a broker. The
decisions of both are a Verus library, with their contracts proved; the program around it
does the networking, storage and floating-point work.

## Layout

- `src/`: the verified library (crate `rs_algo`).
  - `types`: periods, markets, strategy types, trade directions.
  - `sessions`: the server's registry of bot sessions and the heartbeat sweep.
  - `server_messages`: how the server reads a bot's commands and what it answers.
  - `stream`: forwarding the broker's stream to a bot; a chat client's heartbeat.
  - `chat`: the commands a chat client sends to join a room.
  - `historic`: cutting times to candle boundaries and grouping records into candles.
  - `bot`, `bot_messages`: the bot's configuration and its reaction to the server.
  - `strategy`: what a strategy looks at on each candle and what its signals become.
  - `ledger`: the bot's trades and orders, and the step run on each streamed candle.
  - `json`, `error`, `db`, `keyed`: JSON reading, error texts, the database address and
    lemmas about the registry's entries.
- `tests/`: tests of the library on concrete values.
- `app/`: the program. Its first argument picks the part: `server` (the default) or `bot`.
  The strategies' price rules and indicators (floating point) live in
  `app/strategies.rs` and `app/candle.rs`.

## Settings

Both programs read their settings from the environment (or a `.env` file): among others
`WS_SERVER_HOST`, `WS_SERVER_PORT`, `BROKER`, `BROKER_USERNAME`, `BROKER_PASSWORD`, the
`MONGO_BOT_DB_*` and `DB_*` settings for the server, and `SYMBOL`, `TIME_FRAME`,
`HIGHER_TIME_FRAME`, `STRATEGY_NAME`, `STRATEGY_TYPE`, `ORDER_SIZE`, `MAX_BUY_ORDERS` and
the other strategy settings for the bot.

The broker clients and the shared trading models (orders, indicators, statistics) belong to
the trading system's shared crate, which this build does not include: the server's broker
answers every call with an error, and the bot keeps trades and orders as JSON values.
