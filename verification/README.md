# sphinx_inv

Reads Sphinx `objects.inv` inventories: the four header lines, the
zlib-compressed body, and each body line as an entry (`name type priority
location dispname`).

The library in `src/` is written in Verus; every function there carries a
contract over mathematical models (character sequences, byte sequences) and
is proved against it, except four small wrappers whose contracts are trusted:
`zlib_decompress` (flate2's `ZlibDecoder`), `read_line_of`
(`BufRead::read_line` on one line's bytes), `string_from_utf8`
(`String::from_utf8`) and `push_char` (`String::push`).

- `text`: character classes (Unicode white space and decimal digits), trimming,
  line splitting, decimal numbers, building strings.
- `record`: the grammar of an entry line and a search for the first entry in it.
- `roles`: the roles of each domain, read from their exact names.
- `types`: entry types (`domain:role`), priorities, and whole entries.
- `inv_file`: a reader over the bytes of an inventory, the header, the
  decompressed body and the whole inventory.
- `type_syntax`: a small reader for `std` and `py` type texts.
- `error`: the error types and their views.

`app/` holds what needs the file system, logging and `Display` for the errors.
