# mongo_es

Persistence of CQRS events, snapshots and views (for `cqrs-es`) in MongoDB,
with its logic verified.

- `src/` is the verified library: the layout of the stored BSON documents
  (`event_repository`, `view_repository`), reading them back, the
  configuration of the repositories, and how driver errors become repository
  errors (`error`). `document` holds the contracts of the few `bson` calls
  that the library makes, over a model of a document as a map from field
  names to values.
- `app/` runs the repositories against MongoDB: connections, sessions,
  cursors, the event stream task, and the `cqrs-es` traits.
- `tests/` exercises the library on concrete documents and errors.
