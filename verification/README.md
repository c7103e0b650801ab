# robostart

Creates a WPILib robot project for FIRST Robotics teams: it asks for the
settings that the command line left out, downloads the WPILib project
archives into a cache under the home directory, unpacks the archive and
installs the chosen example or template with the team number written into
its preferences.

`src/` is the verified library:

- `choices` — the languages and project types, their names and variant lists;
- `config` — the settings, each filled once (from a flag or from the answer to
  a question) and kept; which question to ask next;
- `cache` — the layout of the cache directory;
- `fetcher` — the downloads that fill the cache;
- `unpack` — the installation steps and the team number in the preferences;
- `derive` — what the `LazyStruct` and `AllVariants` derives generate, from
  the text of the item they are applied to (parsed with `syn`);
- `text` — substring replacement, decimal rendering, path joining.

`app/` is the command itself: flags, questions, downloads and file system
work. `app/derive.rs` writes the derives' results out as tokens; the
package is not a proc-macro crate, so nothing registers them as derives.
