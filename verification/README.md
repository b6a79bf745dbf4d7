# imgforge

An imgproxy-compatible image server whose rules are verified with Verus.

- `src/` is the library. Every public function in it carries a
  `requires`/`ensures` contract that Verus proves, and Verus checks the private
  helpers' bodies against the contracts they carry: request paths and URL
  directive parsing, presets, configuration from
  environment variables, source allow-lists, security limits, encoder option
  strings, format negotiation and client hints, the order of the per-frame
  operations, shrink-on-load, EXIF copyright handling, cache entry layout, and
  the decisions taken while a source image is fetched. Sizes and ratios that
  the image library takes as floating point are held here as exact decimals
  (`numbers::Fixed`, billionths), read from the same text floating-point
  parsing accepts, exponents included.
- Calls into other crates stand behind small trusted wrappers, each with a doc
  comment saying what its contract claims of the crate.
- `app/` is the server around the library: environment, HTTP routes, the
  fetch loop, the caches and the libvips calls that do the pixel work.
- `tests/` exercises the library on concrete values.

Laws that span several functions are stated as public proof functions, for
example `processing::options::laws::lemma_directives_apply_in_order`,
`negotiation::lemma_hints_never_override_the_url` and
`processing::scale_on_load::lemma_shrink_never_undershoots`.
