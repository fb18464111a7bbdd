# captcha_solvers

Provider-agnostic captcha solving (reCAPTCHA V2/V3, Cloudflare Turnstile and
challenges, waiting rooms, image to text) for Capsolver, RuCaptcha and
CapMonster Cloud.

The library in `src/` is verified with Verus:

- `tasks/` – the task types and their builders, and `CaptchaTask`;
- `providers/` – for each provider the payload conversion (with the fields a
  provider cannot carry reported as `UnsupportedTaskError`), CapMonster's
  payload validation, error codes with their retry classification, and what an
  API answer means;
- `service/` – the solve service's configuration, errors and the create/poll
  state machine (cancellation first, then the timeout, then the poll);
- `proxy.rs`, `solutions.rs`, `text.rs` (decimal rendering and parsing),
  `serde_helpers.rs`, `utils/response.rs`.

`app/` holds what Verus does not check: the HTTP clients (reqwest), JSON
encoding and decoding, the async `Provider` trait, retries with backoff
(backon) and the polling loop with its sleeps and cancellation token.
