# archive_extractor

Extracts ZIP, 7z and RAR archives, given one by one, as folders to scan, or in a list
file (`ae --help`). The format of a file is recognised from its first bytes, not its
extension; a file that is not an archive is skipped, and nothing is created for it.
Archives are unpacked into a staging folder inside the destination, then
moved in, a colliding file getting `_1`, `_2`, ... before its extension.

Layout:

- `src/` — the library, verified with Verus: naming of destinations and colliding
  files (`path_utils`), format recognition and the meaning of each decoder's errors
  (`formats`), the safety of ZIP entry paths (`formats::zip`), staging and its
  outcome (`archive_helper`), list files and destinations of the command line
  (`cli`), the state machines of the graphical window and of its worker (`gui`), and
  the context-menu entries (`context_menu`).
- `app/` — the `ae` program: arguments, file system and the decoders (`zip`,
  `sevenz-rust`, `unrar`). The window itself is not built here.
- `tests/` — tests of the library.
