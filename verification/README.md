# png2jp2

A PNG to JPEG 2000 converter whose decisions are verified with Verus.

- `src/` is the verified library:
  - `text` renders integers as `{}`, `{:x}` and `{:#x}` write them;
  - `dump` is the codestream dump (image header, main header coding
    parameters, tiles, codestream index) as text, with its exact contents stated;
  - `params` holds the named encoder parameter sets and their command-line overrides;
  - `pixels` turns interleaved 8-bit pixels into encoder components;
  - `encode` holds the output format choice and the order of the encoder's steps;
  - `cli` holds the converter's and the quality tester's argument handling,
    usage texts and output file names.
- `app/` is the program around it: argument reading, image decoding with the
  `image` crate, encoding with `openjp2`, files and console output. Besides the
  converter (`main`), it holds the quality tester and the folder tester.
- `tests/` runs the library on concrete values.
