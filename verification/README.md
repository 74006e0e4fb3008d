# mmsdm_loader

Loads the tables of AEMO MMSDM files into SQL Server.

- `src/` is the verified library (Verus):
  - `catalogue.rs`: the tables that can be loaded, each with its data model module.
  - `naming.rs`: the call of the stored procedure that inserts a table.
  - `file.rs`: files, file keys and the file log row of a table.
  - `plan.rs`: enabled modules, and what the load does with one table.
  - `batch.rs`: inserting one table in chunks of JSON rows, as a state machine.
  - `loader.rs`: loading every table of a file, as a state machine.
  - `laws.rs`: properties of every run of the two state machines.
- `app/` drives the state machines against SQL Server with tiberius.
- `tests/` runs the library on concrete files and tables.
