# zendriver

The verified core of a browser-automation toolkit, written in Verus.

- `src/fetcher/` resolves a Chromium build (Chrome for Testing,
  ungoogled-chromium, or a Chromium snapshot) against each distribution's
  index, lays it out in the cache, and decides every step of a fetch
  (`Fetcher::step`); `laws.rs` holds the properties that span its functions.
- `src/cloudflare/`, `src/datadome/`, `src/imperva/` hold the in-page
  evaluators, the surface classification and the decisions of each
  clearance loop.
- `src/fingerprints/` holds the cache freshness policy, the fingerprint
  value mapping and the seeded generator.
- `src/locale.rs` and `src/gpu/` hold the table generators' parsers and
  emitters.
- `app/` is the program around the library: the `zendriver-fetch` command
  line, network and filesystem work, and the generators' entry points
  (`locale-gen`, `gpu-tier-gen`, chosen by the name the binary runs under).
