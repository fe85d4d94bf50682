# talos_clusters

A small web front end that manages the configurations of Talos clusters kept in
PostgreSQL data sources.

- `src/` is the library, verified with Verus:
  - `schema.rs`: the configuration model and the table rows;
  - `datasource_postgresql.rs`: the table definitions and the rows a configuration is written as;
  - `clusters.rs`: the combined cluster listing, the create/delete replies, the clusters page;
  - `datasource.rs`: the data sources page and the replies to data source updates;
  - `edit.rs`: the YAML editing page, its validation, placeholder filling and the save replies;
  - `deploiement.rs`: where a cluster's description lies and what its deployment answers;
  - `reply.rs`: the status and body of an answer.
- `app/` is the actix-web server: routing, the `./sources` directory, the databases
  (diesel, r2d2) and YAML (serde_yaml).
- `tests/` runs the library on concrete values.
