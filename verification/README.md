# m2s2-cli

The `m2s2` command-line tool for M²S² design-system projects: scaffolding new frontend,
backend and fullstack projects, generating components, pages and services, running a
project's dev/build/test/lint commands, validating content-delivery articles, and publishing
Markdown articles to Dev.to, Hashnode and blog platforms.

## Layout

- `src/` — the library, verified with Verus: the tool's checks, plans and the text it
  produces, each function with a contract; what they are fed from files, the network and
  processes is gathered in `app/`:
  - `text`, `paths` — character-level string operations and path joining;
  - `markdown`, `utils`, `types` — frontmatter splitting, slugs, name casing, the project
    vocabulary;
  - `report` — the structured check report;
  - `content` — the canonical article schema, its configuration and its validation checks;
  - `publish` — publish configuration (with environment fallbacks), the targets, preparing
    every request before anything is sent, and reading each target's reply;
  - `npm`, `semver_text`, `version_map` — package versions declared by libraries, npm ranges as
    semver requirements, and the version table handed to templates;
  - `scaffold` — which templates go where, the data and versions they are rendered with,
    rendering them with Handlebars, install commands;
  - `config`, `commands` — the project file `.m2s2.json` and what each subcommand decides.
- `app/` — the executable around the library: argument parsing, prompts, files, processes,
  HTTP requests, the embedded template files and the serde views of the library's types.
- `tests/` — tests of the library's public functions.

Laws the library states about itself are public proof functions named `law_*`.
