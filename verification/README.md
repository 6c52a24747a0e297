# butler

A chat bot for music and game lookups, split in two:

- `src/` is the verified library (Verus): the bot's error value and its
  exchange with the command framework's reasons, the embeds it posts for
  tracks and for game ranks, the texts and addresses it builds, the voice
  handlers' decisions (announce a starting track, leave after ten idle
  minutes) and the step functions of the `join`, `league` and `pause`
  commands.
- `app/` is the program around it: it talks to the chat service, the voice
  driver and the web APIs, converts their values to the library's plain
  values, and carries out what the library decides.
- `tests/` run the library on concrete values.
