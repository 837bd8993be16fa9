# Satisfactory start optimizer

Finds good starting coordinates on the Satisfactory map from the resource nodes
around them. The crate is split in two.

`src/` is the verified library (Verus):

- `models`: the option enums, their names and keywords, and the preset weight
  tables of the five game phases (weights in ten-thousandths);
- `weights`: a weight table keyed by resource id;
- `presets`, `simulation`: the six weight presets (as the simulation runs them and
  as the dashboard serves them) and the simulation matrix;
- `server`: parsing and validation of optimize requests;
- `cli`: the command-line option values;
- `data_loader`: which database markers become which resource nodes;
- `optimizer`: the discrete decisions of the search (which nodes count, spawn
  tolerance, yield floors, the sorted resource index space);
- `names`, `text`: sets of ids and character-level string operations.

`app/` is the program around it: argument handling, JSON and file input, the
actix-web server, and the floating-point search itself (distance decay, utility
functions, terrain estimation, hill climbing), which calls the library for every
discrete decision.
