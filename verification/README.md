# parami_exam

The exam system of the Parami Centre: a web server that lists the exam's tasks
and takes in the students' answers, stored in SurrealDB.

- `src/` is the verified library: reading the configuration from the
  environment (`config`), the steps of the database connection (`connection`),
  the exam's tasks and upload limit (`exam`, `templates`), and the handling of
  a submitted answer (`submission`, `datetime`).
- `app/` is the server around it: command line, logging, the `.env` file, the
  database driver, the web routes, file writing and page rendering.
- `tests/` runs the library on concrete values.

The page templates (`templates/index.html`, `templates/categories.html`,
`templates/exam.html`) that `app/templates.rs` renders are not part of this
tree.
