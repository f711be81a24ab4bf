# leptos_oidc

OpenID Connect authentication for Leptos applications, with its logic
verified by Verus.

- `src/` is the verified library: the authentication parameters and states,
  the login URL with its PKCE code challenge, the logout URL, the token
  request bodies, the token storage and its validity in time, and the
  decisions taken when the application loads, when the provider redirects
  back and when a token is refreshed (`flow`). `laws` states properties that
  relate several of these operations.
- `app/` is the Leptos side: signals, effects, storage, HTTP requests,
  navigation, the components, the serialized forms of the types and the
  decoding of JSON Web Tokens. It performs what the library decides.
- `tests/` runs the library on concrete values.
