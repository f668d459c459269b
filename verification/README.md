# seal

A release-management tool: it bumps versions in files, previews and applies
the changes, plans the release branch, commit and push, builds changelogs
from merged GitHub pull requests, and produces release metadata from the
latest changelog section.

The library under `src/` is verified with Verus: each public function states
what it returns in its contract, over spec functions on plain values, and the
laws of the library stand as public proof functions (`law_*`).

- `text`: characters, trimming, searching, splitting and joining.
- `version`, `bump`: semantic versions, bump arguments and the new version.
- `config`, `project`, `workspace`: the `seal.toml` configuration, project
  names, errors and workspace layout.
- `version_files`, `file_change`: the new content of each version file, and
  how a change is shown.
- `changelog`, `github`: categorizing pull requests, changelog entries and
  release bodies; reading GitHub's answers.
- `release`, `command`, `git`: the plan of a bump, its commands, and what
  git's output means (the release-branch check is a state machine).
- `migrate`, `options_docs`, `cli`, `commands`: the rooster migration, the
  configuration reference, and the decisions and messages of the commands.

`app/` is the program around it: argument parsing, files, git and GitHub
calls, and output.
