# anime_recommend

A small web service for keeping track of novels, anime, manga and games one
has finished or still wants to start, with recommendations drawn at random or
asked of a language model.

- `src/` is the verified library: the work and status models and their
  stored names, the error type and the HTTP status of each error, argon2
  password hashing, issuing and verifying the signed session token and the
  session check, the
  prompt and request body sent to the model and the reading of its reply,
  the configuration values, and every decision the request handlers take.
- `app/` is the server around it: configuration from the environment, the
  PostgreSQL queries, the HTTP exchange with the model, and the axum routes,
  extractors and cookies.
- `tests/` exercises the library.

The server needs `DATABASE_URL`, `JWT_SECRET`, `ANTHROPIC_API_KEY` and
`ANTHROPIC_MODEL`; `COOKIE_SECURE`, `COOKIE_SAMESITE`,
`CORS_ALLOWED_ORIGINS` and `PORT` are optional. Database migrations are read
from `./migrations` at start-up.
