# blog_engine

The logic of a small blog: posts and the rows the posts table stores for
them, the queries run on that table, tag lists, the admin pages' decisions
and the admin credential check, verified with Verus.

- `src/` is the verified library: `model` (posts, rows, conversions),
  `table` (the posts table and its queries), `blog` (the single post page),
  `tags`, `date`, `ids`,
  `admin`, `auth`, and `laws` (what holds across queries).
- `app/` is the web server around it: actix-web routes, tinytemplate pages,
  and the SQLite connection through sqlx. It reads the posts table, lets the
  library decide, and stores the rows and deletions the library hands back.
- `tests/` runs the library on concrete values.

The server reads its templates from `templates/` and its static pages from
`static/` at run time, and its database from `posts.db`.
