# Adbyss

Adbyss is a DNS blocklist manager: it gathers ad and tracker host names from
a few public lists, checks each against the Public Suffix List, drops what the
user excludes, and writes "blackhole" records into `/etc/hosts`, in a section
of its own that `--disable` removes again.

The library under `src/` is verified with Verus:

- `psl`, `psl_data`: host names parsed against the Public Suffix List.
- `puny`, `puny_laws`: Punycode decoding and encoding, and what decoding gives
  back of an encoding: never a different label, and always the label itself
  when the integers it carries fit the decoder's arithmetic (every label of
  up to a hundred characters, every DNS label among them).
- `ping`: how often to ask for the network before giving up.
- `sources`: the blocklists and how their text becomes host names.
- `settings`, `hosts`: the two builders of a blocklist (settings-driven and
  flag-driven), with excludes, regular-expression excludes and custom hosts.
- `write`, `unwrite`: the Adbyss section of a hosts file, how it is rendered,
  appended and stripped, and that stripping undoes appending.
- `text`, `sort`: character-sequence and ordering helpers.
- `outside`: every call into code that is not verified here, each with the
  contract it is trusted to meet.

`app/` is the command-line program around the library: argument handling,
configuration files, downloads, the file system and the terminal.
