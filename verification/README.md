# andromeda_stars

The card logic of a small web catalogue of stars in the Andromeda galaxy,
verified with Verus.

- `src/` is the verified library: text trimming and integer reading and
  writing (`text`, `number`), the request errors (`errors`), the forms and
  their validation (`forms`), the stored records and the card that pages show
  (`models`), and what the page handlers decide (`handlers::stars`): which star
  the feed shows, which draft is created, what a publication writes, what a
  deletion answers and which grid page is shown.
- `app/` is the web server around it: routes, database queries, template
  rendering, environment variables, and the distance check, which works on a
  float.
- `tests/` runs the library on concrete values.
