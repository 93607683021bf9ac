# mqtt-broker metadata cache

The broker keeps a local copy of cluster metadata and updates it from change
records (`MetadataChangeData`). `src/` holds the cache and its verified
operations; `src/metadata/laws.rs` states the properties of the users table
that hold across operations. `app/` decodes the JSON-encoded records and users
and feeds the decoded values to the cache.
