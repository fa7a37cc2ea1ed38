# apple_connector

Request validation, pagination cursors, structured errors, content negotiation and response
shapes of a read-mostly HTTP API over Messages, Reminders, Notes, Calendar and Contacts data,
verified with Verus.

- `src/` is the verified library. Every function states what it returns in its `ensures`;
  laws that relate several functions are public `law_*` proof functions.
- `app/` is the HTTP edge: JSON (de)serialization of the library's values, header access and
  response building with axum. It holds no rules of its own.
- `tests/` exercise the library on concrete values.

Module map of `src/`:

| module | what it holds |
| --- | --- |
| `error_codes`, `error` | the error code registry and the structured error body |
| `text` | trimming, integer parsing, UTF-8 length, splitting, ASCII case |
| `params`, `filters` | query and path parameters and the search filters they give |
| `cursor` | `v1.` + base64url cursors and the key checks of decoded payloads |
| `format` | `format`, `Accept` and `Content-Type` negotiation |
| `eventkit`, `contacts` | write requests, store inputs, authorisation and store errors |
| `floats` | floats as bit patterns, and the whole-number value an integer takes as a double |
| `model`, `dto` | database records and the response shapes they become |
| `reminder_write` | the order of a reminder write's steps, as a step function |
| `attachment_access` | which stored file an attachment request serves, and the refusals |
| `health`, `hydrate`, `media`, `middleware`, `listing`, `routes`, `extract` | response policy |
