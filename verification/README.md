# bsp_loader

Verified logic of a Source-engine map viewer for the PC and for the GameCube: the VPK archive
directory, VTF textures, VMT materials, canonical paths, ISO 9660 and GameCube disc file
systems, the apploader's load sequence, the DVD and video interface register sequences, the CPU's
machine state and interrupt registers, lightmap assembly, TEV shader loading, the viewer's menus
and overlay, and the converter's index files.

- `src/` is the library, checked by Verus.
- `tests/` exercises it on concrete data.
- `app/` is the command-line front end and the console-side drivers that perform the register
  writes and reads that the library decides.
