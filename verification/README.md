# oxide_manager

A game-mod manager: it unpacks mod archives (zip, RAR, 7z), moves their
files into a game directory (as copies or as symbolic links), backs up and
logs every file it replaces, and has a restore step that moves files back
from "<profile>bak<rest>": the backup location without the data-directory
prefix it was written under, so backups are not found there. Each modded
game gets a profile document (INI) with an optional cover image fetched from
SteamGridDB.

- `src/` is the verified library (Verus): path arithmetic with std's Unix
  meaning (`paths`), string helpers (`text`), archive dispatch and per-entry
  decisions (`archive`), the copy/backup plan (`transfer`), the log of
  replaced files and the restore plan (`restore`), profile documents
  (`profile`, over rust-ini through `ini_store`), zip archives read from
  memory (`zip_store`), cover-image decoding and SteamGridDB choices (`cover`) and the working directories of a run (`session`).
  `environment` holds the one call that reads the user's data directory.
- `app/` is the command-line program that performs the file system, archive
  and network work the library plans.
- `tests/` runs the library on concrete values, comparing the path helpers
  with `std::path`.
