# vsf

A verified library for the VSF binary format: self-describing values written as a type marker
followed by their bytes, with integer sizes in the EWE variable-width encoding.

- `src/ewe.rs`, `src/eggs.rs`: the EWE integer encoding and the fixed-size placeholder form.
- `src/encoding/`: turning a `VsfType` into bytes (`flatten`) and its exact length (`byte_len`).
- `src/decoding/`: reading values back (`parse` and the parsers it dispatches to), with one
  contract per parser stating which bytes give which value or which error.
- `src/roundtrip.rs`: the proof that `parse` reads back what `flatten` wrote and stops at its
  end, for every kind of value except the auto-sized `u`/`i` (read back at a fixed width),
  inclusive sizes, and one-dimensional tensors (integer tensors come back as vectors, byte
  vectors as tensors).
- `src/decrypt.rs`: decryption of encrypted payloads, and keypairs built from key bytes or from
  the bytes of a key file, through the x25519, AES-GCM and ed25519 crates.
- `src/toka.rs`, `src/decoding/toka_tree.rs`: the toka capsule tree and its decoder.
- `app/`: conversions between the library's plain types and floats, complex numbers and
  standard error traits, which the verified code cannot hold, and reading a key file from disk.

Not covered: Huffman-coded text (`x`), world coordinates (`w`, `wa`), renderable objects
(`ro*`), the colour formats `r`, `rx`, `rz`, `rs`, `rf`, `rh`, `rd`, `rb`, `rw`, `rq` and `rm`,
marker definitions and references, and the file header: none of these is a `VsfType` here.
Network addresses (`na`, `nc`, `nh`, `ni`, `nj`, `nm`, `nn`, `np`, `ns`, `nu`) are written but
not read (`n` opens a count). Reading a key file takes the position where its header ends.
