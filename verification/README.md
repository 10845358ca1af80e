# bosd

Bitcoin Output Script Descriptors: a one-byte type tag followed by a payload
that together describe a standard output script.

- `src/descriptor.rs`: the descriptor types, parsing and encoding, and the
  laws relating them (tag round trip, parse/encode round trip, injectivity).
- `src/ssz_encoding.rs`: SSZ encoding and decoding as an opaque byte list,
  through `ssz_types` and `ethereum_ssz`.
- `src/address.rs`: conversions to and from Bitcoin addresses, witness
  programs, script hashes, keys and output scripts, through `bitcoin`.
- `src/error.rs`: the descriptor errors.
- `app/lib.rs`: the `ssz::Encode` / `ssz::Decode` impls and `Display` for
  errors, on wrapper types.
- `tests/`: tests of the library.
