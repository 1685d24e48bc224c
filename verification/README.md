# spatial_import_tool

A desktop tool that imports spatial data files (Shapefile, GeoPackage,
GeoJSON, KML, read with GDAL) into PostgreSQL/PostGIS or Dameng (DM8)
databases. The decisions of the tool are a library verified with Verus; the
desktop shell around it performs the input and output.

- `src/` — the verified library:
  - `models.rs`: settings, file descriptions, progress and results, each with
    the mathematical value its contracts speak of;
  - `text.rs`: character-level text functions (decimal text, integer
    parsing, quoting and escaping) with their laws;
  - `database/`: the SQL dialects and the statements built from them, the
    saved list of database settings, connection strings and reports, the
    parameterised batch inserts, the DM8 driver check;
  - `gdal/`: names of OGR field and geometry types, formats by extension,
    file and layer descriptions from what was read of a file;
  - `commands/`: the import procedure as a state machine (`ImportMachine`)
    that takes the outcome of each piece of outside work and gives the next
    action, with its invariant and laws.
- `tests/` — tests of the library on concrete values.
- `app/` — the Tauri commands, GDAL reading, configuration file, ODBC and
  PostgreSQL connections, and the loop that drives `ImportMachine`.
