# recad_python

The verified core of the Python binding of the recad schematic tool.

- `src/` is the library, verified with Verus: the schematic elements (labels,
  junctions, symbols, wires, resistors, capacitors, power and ground symbols,
  no-connect markers, feedback lines) with their builder methods; how the values
  handed in from Python are read as placements; the attribute lists the elements
  hand to the drawing engine; the schema session (a loaded schema, or an active
  drawing session, and the position stack of pushed junctions); the kind of a
  design file, read from its path; and the texts of violations, images and
  error messages. Numbers of the drawing are carried by the bit patterns of
  their doubles and never computed with.
- `tests/` runs the library on concrete values.
- `app/` is the Python module itself (pyo3): it reads Python values into the
  library's values, and hands the library's drawings to the recad engine.
