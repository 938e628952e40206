# imkitchen

A recipe library: recipes that their owners draft, edit, delete and import,
kept as logs of events, with tables that are derived from the logs and pages
that show them.

`src/` is the library. Everything in it is checked by Verus, and every public
function says in its contract what it returns or changes.

- `recipe`: recipes, the commands on them and the events they lead to
- `history`: what holds of every history of a recipe
- `import`: imports, what is read out of a file, and the course of an import
- `projection`: the rows of the tables, and what an event does to them
- `web`: sessions, forms and pages; what is answered to each request
- `admin`: sessions of the admin server
- `text`, `forms`, `json`: texts, form bodies and lists of texts as JSON

`app/` is the program around it: configuration, the database, the event store,
the servers and the HTML. It also parses and prints quantities, which are
floating-point numbers; the library carries them as their bits.

`tests/` runs the library on examples.

The calls that the library makes into other crates (`serde_json`,
`form_urlencoded`, `mime_guess`, `ulid`) stand behind private functions whose
doc comments say what is taken on trust.
