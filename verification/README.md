# codex_telegram

Remote control of the decisions that an interactive session waits for: approvals and prompts that
are answered in a chat or on the command line instead of the terminal.

- `src/` is the library, verified with Verus. It does no input or output of its own. Where the
  outside world is needed, a function says what is to be done next, and takes what came of it.
- `app/` does what the library asks for: files, locks, network and timers.
- `tests/` runs the library on concrete values.

| module          | what it holds                                                            |
|-----------------|--------------------------------------------------------------------------|
| `text`          | character classes, words, trimming, decimal and hexadecimal forms        |
| `token`         | random tokens                                                            |
| `input`         | what the application and the library exchange                            |
| `decision`      | pending decisions, their choices, the queue and its answers              |
| `control_files` | the files through which another process sees and answers a decision      |
| `paths`         | paths below the home directory                                           |
| `commands`      | the `/cx` and `/cxi` commands                                            |
| `api`           | requests to the chat service and what its replies mean                   |
| `bots`          | bot profiles and what can be wrong with them                             |
| `notifier`      | the bot of a session: choosing, locking, giving up                       |
| `snapshot`      | the list of bots to choose from                                          |
| `sending`       | outgoing messages                                                        |
| `polling`       | incoming updates                                                         |
| `laws`          | what holds of the library as a whole                                     |

The models that contracts speak of are specification functions over sequences of characters. Two
items are trusted: the random UUID behind a token, and `String::push`.
