# xiv-otp

Automatic OTP generation for XIVLauncher, as a verified library and a thin program.

- `src/` (verified with Verus): reading the authenticator secret (`secret`), TOTP
  generators (`generator`), the launcher's submission URL (`xl_send`), the decisions
  of the launcher watch (`monitor`), the choice of the stored secret (`secret_store`),
  the options (`config`), and the course of a run as a state machine (`session`).
- `app/`: the command line, the secret service, the terminal prompt, `/proc`, HTTP and
  the async runtime; it performs the steps the session asks for.
- `tests/`: tests of the library.
