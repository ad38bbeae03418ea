# camera_bot

A Telegram bot that finds ONVIF cameras on the local network, captures their
frames, looks for motion and faces, and answers a small set of chat commands
(`/start`, `/help`, `/find`, `/status`, `/stop`, `/access`).

- `src/` is the verified library (Verus): the users' registry and its laws,
  the command dialogue as a transition function (`handler::step`), the
  reading of button data, the discovery probe and what a discovery reply adds
  to the camera list, the choice of the latest image, and the texts the bot
  sends.
- `app/` is the program around it: Telegram (teloxide), the HTTP endpoint
  (actix-web), UDP discovery (tokio), JSON files (serde), and the OpenCV image
  pipeline, which works on floating-point image data.
- `tests/` runs the library on concrete values.

Running the program needs `TELEGRAM_BOT_TOKEN` (and optionally `HOST`, `PORT`,
`MOTION_FOLDER`) in the environment or a `.env` file. `/find` adds the cameras
it finds to the known ones and starts capturing from them; when none are
known, the local camera is used.
