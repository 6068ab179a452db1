# cloudflareddns

Keeps Cloudflare DNS `A` records pointing at the machine's external address.

- `src/` is the verified library: the settings and where they are read from
  (`config`, `settings`, `text`), the Cloudflare requests and what a listing of
  records asks for (`cloudflare`), the external-address endpoints
  (`external_ip`), and one round of updates as a state machine (`monitor`).
- `app/` is the program around it: it reads the environment and the `.env`
  file, performs the HTTP requests that the round asks for, prints the log,
  and repeats the round until a shutdown signal arrives.
