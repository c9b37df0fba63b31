# photorot

A desktop tool for photo folders: it lists the images of a directory, shows
each file's Exif orientation, rotates the files whose orientation asks for it
(with an external script), and converts files to 1920x1080 into an output
directory (with ImageMagick).

- `src/` is the library, verified with Verus: the listings (`listing`), the
  folder-dialog outcomes (`dialogs`), the progress messages (`progress`), the
  background runs (`batch`), the screens as state machines (`photo_rot`,
  `tab_bar`, `tabs`), the text and sorting helpers they rest on (`text`,
  `sorting`), and properties that tie them together (`laws`).
- `app/` is the program around it: the windows (iced), the folder dialog,
  the file system, and the external programs. It performs what the screens
  ask for and hands the answers back.
- `tests/` exercises the library on concrete values.

Some modules that the program relies on are not part of this source tree:
the pre-run checks before converting and rotating, the orientation listing
used by the rotate buttons, the screen-size lookup, the Exif dump to standard
output, and the counter and settings tabs. `app/io.rs` stands in for the
first three with simple versions of its own: the conversion check only asks
that the output directory exist ("convert copy started" / "output directory
does not exist: ..."), the rotation check only asks that the directory exist
("rotate started" / "directory does not exist: ..."), the rotate buttons use
the same orientation listing as the convert page, and the window keeps its
default size. No Exif dump is printed, and the tabbed window shows only the
rotate-correction and convert tabs.
