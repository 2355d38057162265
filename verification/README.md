# webshop

A small shop served with Rocket: visitors choose a language, sign up, log in,
add products and fill a basket kept in cookies.

- `src/` is the verified library (Verus): the language choice and the values
  that templates get (`config`, `context`), sign-up rules (`signup`), password
  and session checks (`login`, `session`), the records (`models`), product and
  basket rules (`store`), decimal numerals (`numeral`), text helpers (`text`)
  and the endpoint table (`routes`).
- `app/` is the web server around it: Rocket routes and request guards,
  templates, cookies and the PostgreSQL database through Diesel.
- `tests/` runs the library on concrete values.
