# charactermap

The logic of a character map, verified with Verus: which Unicode blocks and
characters the grid shows and where, what characters are called and how they are
found by name or by number, how the font list is ordered and searched, which
codepoints a font file covers, and what each message to the main window does.

- `src/unicode/`: the blocks, the displayable characters of a block, and the flat
  list model of the grid.
- `src/helpers/`: character names and their search, block positions and headers,
  the font list, and the coverage of font files.
- `src/app.rs`: the state of the main window, the messages that change it, and the
  effects that a message has on the user interface.
- `src/widgets/`: the help text.
- `src/text.rs`, `src/table.rs`: text and number primitives, and the text tables
  in which names and blocks are kept.
- `app/`: the GTK program around the library.

Public proof functions named `law_...` state what holds across functions: that
the grid's model has exactly the displayable characters, that a character that is
looked for is the one that gets selected, that leaving a search brings back what
was shown before, and so on.
