# douluo-game

The rules of a text role-playing game for chat bots, and of the picture service that goes
with it, as a Verus library: the contract of a function states what it returns or
changes, and is proved. What other crates compute stands in the contracts under a name.

- `src/` is the library.
  - Requests and answers: `identity`, `context`, `event`, `host`, `game_args`, `game`,
    `game_replies`, `plugin`, `alias`, `menu`, `qq_media`.
  - Documents: `message` renders them; `player_documents`, `economy_documents`,
    `quest_documents`, `battle_documents`, `world_documents` and `owner_documents` write
    them from `records`, with the words of `labels`.
  - Content: `content`, `content_rules` and `content_laws` say which packages are well
    shaped, `content_package` and `public_seed` take packages in.
  - Players from elsewhere: `player_staging`, `player_stage_confirmation`,
    `player_stage_laws`.
  - Pictures: `catalog`, `catalog_laws`, `assets`, `signature`, `direct_asset_upload`,
    `media`, `entry_order`, `media_catalog`, `media_http`, `media_laws`.
  - The rest: `config`, `startup`, `checkin`, `cli`, and the foundations `text`, `keyed`
    and `seen`.
  - `outside` and the contract of `String::push` at the top of `text` are what is
    believed of other crates and of the standard library; everything else is proved.
- `app/` talks to the plugin host, databases, files and the network. It reads and writes
  packages as JSON and TOML, asks the store in the order that a command needs, and hands
  what it finds to the library, which decides.
- `tests/` runs the library on concrete values.
