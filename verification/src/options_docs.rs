//! The configuration reference: the Markdown pages that document the
//! options of `seal.toml`.

use vstd::prelude::*;
use vstd::string::*;

use crate::text::{
    chars_of, ends_with, extend_chars, extend_str, is_blank, join, split_char, starts_with,
    string_of, text_less, text_lt, trim_end, views,
};

verus! {

/// The `[release]` part of the configuration reference, after `s`.
pub open spec fn release_config_docs(s: Seq<char>) -> Seq<char> {
    s
        + "## `[release]`\n\n"@
        + "Release management configuration.\n\n"@
        + "### `current-version`\n\n"@
        + "**Required**\n\n"@
        + "**Type**: `string`\n\n"@
        + "The current version of the project.\n\n"@
        + "**Example**:\n\n"@
        + "```toml\n[release]\ncurrent-version = \"1.2.3\"\n```\n\n"@
        + "---\n\n"@
        + "### `version-files`\n\n"@
        + "**Optional**\n\n"@
        + "**Type**: `array` of strings or objects\n\n"@
        + "List of files to update with the new version. Can be simple file paths or detailed configurations with search patterns.\n\n"@
        + "**Example (simple)**:\n\n"@
        + "```toml\n[release]\nversion-files = [\"Cargo.toml\", \"package.json\"]\n```\n\n"@
        + "**Example (detailed)**:\n\n"@
        + "```toml\n[[release.version-files]]\npath = \"version.sh\"\nsearch = 'export VERSION=\"{version}\"'\n\n[[release.version-files]]\npath = \"Cargo.toml\"\nsearch = 'version = \"{version}\"'\nversion-template = \"{version}\"\n```\n\n"@
        + "---\n\n"@
        + "### `commit-message`\n\n"@
        + "**Optional**\n\n"@
        + "**Type**: `string`\n\n"@
        + "Commit message template for version bump commits. Must contain `{version}` placeholder.\n\n"@
        + "**Example**:\n\n"@
        + "```toml\n[release]\ncommit-message = \"chore: release v{version}\"\n```\n\n"@
        + "---\n\n"@
        + "### `branch-name`\n\n"@
        + "**Optional**\n\n"@
        + "**Type**: `string`\n\n"@
        + "Branch name template for release branches. Must contain `{version}` placeholder. Required if `push` or `create-pr` is true.\n\n"@
        + "**Example**:\n\n"@
        + "```toml\n[release]\nbranch-name = \"release-{version}\"\n```\n\n"@
        + "---\n\n"@
        + "### `tag-format`\n\n"@
        + "**Optional**\n\n"@
        + "**Type**: `string`\n\n"@
        + "Git tag format template. Must contain `{version}` placeholder.\n\n"@
        + "**Example**:\n\n"@
        + "```toml\n[release]\ntag-format = \"v{version}\"\n```\n\n"@
        + "---\n\n"@
        + "### `push`\n\n"@
        + "**Optional**\n\n"@
        + "**Type**: `boolean`\n\n"@
        + "**Default**: `false`\n\n"@
        + "Whether to push the release branch to the remote repository. Requires `branch-name` to be set.\n\n"@
        + "**Example**:\n\n"@
        + "```toml\n[release]\npush = true\n```\n\n"@
        + "---\n\n"@
        + "### `create-pr`\n\n"@
        + "**Optional**\n\n"@
        + "**Type**: `boolean`\n\n"@
        + "**Default**: `false`\n\n"@
        + "Whether to create a pull request for the release. Requires both `branch-name` and `push` to be set.\n\n"@
        + "**Example**:\n\n"@
        + "```toml\n[release]\ncreate-pr = true\n```\n\n"@
        + "---\n\n"@
        + "### `confirm`\n\n"@
        + "**Optional**\n\n"@
        + "**Type**: `boolean`\n\n"@
        + "**Default**: `true`\n\n"@
        + "Whether to prompt for confirmation before making changes.\n\n"@
        + "**Example**:\n\n"@
        + "```toml\n[release]\nconfirm = false\n```\n\n"@
}

/// Appends the `[release]` part of the configuration reference.
pub fn generate_release_config(output: &mut String)
    ensures
        final(output)@ == release_config_docs(old(output)@),
{
    output.append("## `[release]`\n\n");
    output.append("Release management configuration.\n\n");
    output.append("### `current-version`\n\n");
    output.append("**Required**\n\n");
    output.append("**Type**: `string`\n\n");
    output.append("The current version of the project.\n\n");
    output.append("**Example**:\n\n");
    output.append("```toml\n[release]\ncurrent-version = \"1.2.3\"\n```\n\n");
    output.append("---\n\n");
    output.append("### `version-files`\n\n");
    output.append("**Optional**\n\n");
    output.append("**Type**: `array` of strings or objects\n\n");
    output.append("List of files to update with the new version. Can be simple file paths or detailed configurations with search patterns.\n\n");
    output.append("**Example (simple)**:\n\n");
    output.append("```toml\n[release]\nversion-files = [\"Cargo.toml\", \"package.json\"]\n```\n\n");
    output.append("**Example (detailed)**:\n\n");
    output.append("```toml\n[[release.version-files]]\npath = \"version.sh\"\nsearch = 'export VERSION=\"{version}\"'\n\n[[release.version-files]]\npath = \"Cargo.toml\"\nsearch = 'version = \"{version}\"'\nversion-template = \"{version}\"\n```\n\n");
    output.append("---\n\n");
    output.append("### `commit-message`\n\n");
    output.append("**Optional**\n\n");
    output.append("**Type**: `string`\n\n");
    output.append("Commit message template for version bump commits. Must contain `{version}` placeholder.\n\n");
    output.append("**Example**:\n\n");
    output.append("```toml\n[release]\ncommit-message = \"chore: release v{version}\"\n```\n\n");
    output.append("---\n\n");
    output.append("### `branch-name`\n\n");
    output.append("**Optional**\n\n");
    output.append("**Type**: `string`\n\n");
    output.append("Branch name template for release branches. Must contain `{version}` placeholder. Required if `push` or `create-pr` is true.\n\n");
    output.append("**Example**:\n\n");
    output.append("```toml\n[release]\nbranch-name = \"release-{version}\"\n```\n\n");
    output.append("---\n\n");
    output.append("### `tag-format`\n\n");
    output.append("**Optional**\n\n");
    output.append("**Type**: `string`\n\n");
    output.append("Git tag format template. Must contain `{version}` placeholder.\n\n");
    output.append("**Example**:\n\n");
    output.append("```toml\n[release]\ntag-format = \"v{version}\"\n```\n\n");
    output.append("---\n\n");
    output.append("### `push`\n\n");
    output.append("**Optional**\n\n");
    output.append("**Type**: `boolean`\n\n");
    output.append("**Default**: `false`\n\n");
    output.append("Whether to push the release branch to the remote repository. Requires `branch-name` to be set.\n\n");
    output.append("**Example**:\n\n");
    output.append("```toml\n[release]\npush = true\n```\n\n");
    output.append("---\n\n");
    output.append("### `create-pr`\n\n");
    output.append("**Optional**\n\n");
    output.append("**Type**: `boolean`\n\n");
    output.append("**Default**: `false`\n\n");
    output.append("Whether to create a pull request for the release. Requires both `branch-name` and `push` to be set.\n\n");
    output.append("**Example**:\n\n");
    output.append("```toml\n[release]\ncreate-pr = true\n```\n\n");
    output.append("---\n\n");
    output.append("### `confirm`\n\n");
    output.append("**Optional**\n\n");
    output.append("**Type**: `boolean`\n\n");
    output.append("**Default**: `true`\n\n");
    output.append("Whether to prompt for confirmation before making changes.\n\n");
    output.append("**Example**:\n\n");
    output.append("```toml\n[release]\nconfirm = false\n```\n\n");
}

/// The page header and title of the configuration page.
pub open spec fn configuration_page_head() -> Seq<char> {
    "<!-- WARNING: This file is auto-generated (cargo run -p seal_dev generate-all). Update the doc comments in 'crates/seal_project/src/config.rs' if you want to change anything here. -->\n\n"@
        + "# Configuration\n\n"@
        + "Seal configuration is defined in a `seal.toml` file in the root of your project.\n\n"@
}

/// The configuration page (`docs/configuration.md`): its header and title,
/// then the `[release]` options.
pub fn configuration_markdown() -> (r: String)
    ensures
        r@ == release_config_docs(configuration_page_head()),
{
    let mut output = String::new();
    output.append(
        "<!-- WARNING: This file is auto-generated (cargo run -p seal_dev generate-all). Update the doc comments in 'crates/seal_project/src/config.rs' if you want to change anything here. -->\n\n",
    );
    output.append("# Configuration\n\n");
    output.append(
        "Seal configuration is defined in a `seal.toml` file in the root of your project.\n\n",
    );
    assert(output@ =~= configuration_page_head());
    generate_release_config(&mut output);
    output
}

// ---------------------------------------------------------------------------
// The options reference, from the options' metadata
// ---------------------------------------------------------------------------

/// Why and since when an option is deprecated.
#[derive(Debug)]
pub struct Deprecated {
    pub since: Option<String>,
    pub message: Option<String>,
}

/// The documentation of one option.
#[derive(Debug)]
pub struct OptionField {
    pub doc: String,
    pub default: Option<String>,
    pub value_type: String,
    pub scope: Option<String>,
    pub example: String,
    pub deprecated: Option<Deprecated>,
    /// The possible values, each as it is shown.
    pub possible_values: Option<Vec<String>>,
}

/// A group of options: its documentation, its options and its sub-groups,
/// each under a name that is unique within the group.
#[derive(Debug)]
pub struct OptionSet {
    pub documentation: Option<String>,
    pub fields: Vec<(String, OptionField)>,
    pub sets: Vec<(String, OptionSet)>,
}

/// The lines split off at `\n` (`str::split_terminator`): a final empty
/// piece is no line.
pub open spec fn terminated_lines(s: Seq<char>) -> Seq<Seq<char>> {
    let ps = split_char(s, '\n');
    if ps.last().len() == 0 {
        ps.drop_last()
    } else {
        ps
    }
}

/// A line with the prefix before it; for a blank line, the prefix without
/// its trailing whitespace.
pub open spec fn indent_line(line: Seq<char>, prefix: Seq<char>) -> Seq<char> {
    (if is_blank(line) {
        trim_end(prefix)
    } else {
        prefix
    }) + line
}

/// What `textwrap::indent(s, prefix)` gives: each line with the prefix
/// before it (see [`indent_line`]), joined by `\n`, and a final `\n` when
/// `s` ends with one.
pub open spec fn indent_text(s: Seq<char>, prefix: Seq<char>) -> Seq<char> {
    join(terminated_lines(s).map_values(|l: Seq<char>| indent_line(l, prefix)), "\n"@) + (if ends_with(
        s,
        "\n"@,
    ) {
        "\n"@
    } else {
        seq![]
    })
}

/// `textwrap::indent`: puts the prefix before each line of the text. The
/// contract states what its source does: lines are the pieces of
/// `split_terminator('\n')`; a line that is blank gets the prefix without
/// its trailing whitespace; the lines are joined by `\n` and a final `\n`
/// of the text is kept.
#[verifier::external_body]
fn textwrap_indent(s: &str, prefix: &str) -> (r: String)
    ensures
        r@ == indent_text(s@, prefix@),
{
    textwrap::indent(s, prefix)
}

/// `itertools::Itertools::join` on strings: the strings with the separator
/// between neighbours. The contract states what its source does.
#[verifier::external_body]
fn itertools_join(parts: &Vec<String>, sep: &str) -> (r: String)
    ensures
        r@ == join(views(parts@), sep@),
{
    itertools::Itertools::join(&mut parts.iter(), sep)
}

/// The names of the named groups among the parents (the top group has
/// none).
pub open spec fn parent_names(parents: Seq<Option<Seq<char>>>) -> Seq<Seq<char>>
    decreases parents.len(),
{
    if parents.len() == 0 {
        seq![]
    } else {
        let prev = parent_names(parents.drop_last());
        match parents.last() {
            Some(n) => prev.push(n),
            None => prev,
        }
    }
}

/// The parents as optional names.
pub open spec fn parents_view(parents: Seq<Option<String>>) -> Seq<Option<Seq<char>>> {
    parents.map_values(|p: Option<String>| crate::text::opt_view(p))
}

/// The names of the named groups among the parents.
fn named_parents(parents: &Vec<Option<String>>) -> (r: Vec<String>)
    ensures
        views(r@) == parent_names(parents_view(parents@)),
{
    let ghost pv = parents_view(parents@);
    let mut r: Vec<String> = Vec::new();
    let n = parents.len();
    for i in 0..n
        invariant
            n == parents@.len(),
            pv == parents_view(parents@),
            views(r@) == parent_names(pv.take(i as int)),
    {
        assert(pv.take(i + 1).drop_last() == pv.take(i as int));
        assert(pv.take(i + 1).last() == pv[i as int]);
        match &parents[i] {
            Some(name) => {
                let c = name.clone();
                let ghost before = r@;
                r.push(c);
                assert(views(r@) == views(before).push(c@));
            },
            None => {},
        }
    }
    assert(pv.take(n as int) == pv);
    r
}

/// The header of an option's example: the dotted path of its group (and
/// scope) in brackets; nothing when the example starts with that table
/// itself or when the path is empty.
pub open spec fn example_header(scope: Option<Seq<char>>, example: Seq<char>, parents: Seq<Option<Seq<char>>>) -> Seq<char> {
    let header = join(
        parent_names(parents) + match scope {
            Some(s) => seq![s],
            None => seq![],
        },
        "."@,
    );
    if starts_with(example, "[["@ + header) || starts_with(example, "["@ + header) || header.len()
        == 0 {
        seq![]
    } else {
        "["@ + header + "]"@
    }
}

/// Builds the header of an option's example (see [`example_header`]).
fn format_header(scope: &Option<String>, example: &str, parents: &Vec<Option<String>>) -> (r: String)
    ensures
        r@ == example_header(crate::text::opt_view(*scope), example@, parents_view(parents@)),
{
    let mut names = named_parents(parents);
    let ghost base = views(names@);
    match scope {
        Some(sc) => {
            let c = sc.clone();
            names.push(c);
            assert(views(names@) == base + seq![c@]);
        },
        None => {
            assert(views(names@) == base + Seq::<Seq<char>>::empty());
        },
    }
    let header = itertools_join(&names, ".");
    let a = crate::text::concat2("[[", header.as_str());
    let b = crate::text::concat2("[", header.as_str());
    if crate::text::str_starts_with(example, a.as_str()) || crate::text::str_starts_with(
        example,
        b.as_str(),
    ) || header.as_str().is_empty() {
        String::new()
    } else {
        crate::text::concat3("[", header.as_str(), "]")
    }
}

/// A tab of example content: its title, then the content indented as a
/// TOML code block, under the header line when there is one.
pub open spec fn tab_text(tab_name: Seq<char>, header: Seq<char>, content: Seq<char>) -> Seq<char> {
    if header.len() == 0 {
        "=== \""@ + tab_name + "\"\n\n    ```toml\n"@ + indent_text(content, "    "@) + "\n    ```\n"@
    } else {
        "=== \""@ + tab_name + "\"\n\n    ```toml\n    "@ + header + "\n"@ + indent_text(
            content,
            "    "@,
        ) + "\n    ```\n"@
    }
}

/// Builds a tab of example content (see [`tab_text`]).
fn format_tab(tab_name: &str, header: &str, content: &str) -> (r: String)
    ensures
        r@ == tab_text(tab_name@, header@, content@),
{
    let indented = textwrap_indent(content, "    ");
    let mut t = chars_of("=== \"");
    extend_str(&mut t, tab_name);
    if header.is_empty() {
        extend_str(&mut t, "\"\n\n    ```toml\n");
    } else {
        extend_str(&mut t, "\"\n\n    ```toml\n    ");
        extend_str(&mut t, header);
        extend_str(&mut t, "\n");
    }
    extend_str(&mut t, indented.as_str());
    extend_str(&mut t, "\n    ```\n");
    string_of(t.as_slice())
}

/// `s` followed by the lines of the possible values.
pub open spec fn value_lines_after(s: Seq<char>, vs: Seq<Seq<char>>) -> Seq<char>
    decreases vs.len(),
{
    if vs.len() == 0 {
        s
    } else {
        value_lines_after(s, vs.drop_last()) + "- "@ + vs.last() + "\n"@
    }
}

/// `s` followed by the heading of an option: its name with an anchor made
/// of the named parents' names (and, inside a group, the old anchor).
pub open spec fn field_head_after(s: Seq<char>, name: Seq<char>, parents: Seq<Option<Seq<char>>>) -> Seq<char> {
    let level = if parents.len() > 1 {
        "####"@
    } else {
        "###"@
    };
    let anchor = join(parent_names(parents), "_"@);
    if anchor.len() == 0 {
        s + level + " [`"@ + name + "`](#"@ + name + ")\n"@
    } else {
        s + level + " [`"@ + name + "`](#"@ + anchor + "_"@ + name + ")\n"@ + "<span id=\""@ + name
            + "\"></span>\n"@
    }
}

/// `s` followed by the deprecation notice of an option, if it has one.
pub open spec fn deprecation_after(s: Seq<char>, d: Option<Deprecated>) -> Seq<char> {
    match d {
        Some(dep) => {
            let a = s + "!!! warning \"Deprecated\"\n"@ + "    This option has been deprecated"@;
            let b = match dep.since {
                Some(x) => a + " in "@ + x@,
                None => a,
            };
            let c = b + "."@;
            let e = match dep.message {
                Some(m) => c + " "@ + m@ + "\n"@,
                None => c,
            };
            e + "\n"@
        },
        None => s,
    }
}

/// `s` followed by an option's default, or that it is required.
pub open spec fn default_after(s: Seq<char>, field: OptionField) -> Seq<char> {
    match field.default {
        Some(d) => s + "**Default value**: `"@ + d@ + "`\n"@,
        None => s + "**Required**\n"@,
    }
}

/// An option with possible values to list.
pub open spec fn lists_values(field: OptionField) -> bool {
    field.possible_values matches Some(vs) && vs@.len() > 0
}

/// `s` followed by an option's possible values, or its type.
pub open spec fn kind_after(s: Seq<char>, field: OptionField) -> Seq<char> {
    if lists_values(field) {
        value_lines_after(s + "**Possible values**:\n\n"@, views(field.possible_values->Some_0@))
    } else {
        s + "**Type**: `"@ + field.value_type@ + "`\n"@
    }
}

/// `s` followed by an option's example tab, for an option of the top
/// group's tree.
pub open spec fn example_after(s: Seq<char>, field: OptionField, parents: Seq<Option<Seq<char>>>) -> Seq<char> {
    if parents.len() > 0 && parents[0] is None {
        s + tab_text(
            "seal.toml"@,
            example_header(crate::text::opt_view(field.scope), field.example@, parents),
            field.example@,
        )
    } else {
        s
    }
}

/// `s` followed by the documentation of an option in the reference: its
/// heading, its deprecation notice, its doc text, its default, its values
/// or type, and its example.
pub open spec fn field_text_after(
    s: Seq<char>,
    name: Seq<char>,
    field: OptionField,
    parents: Seq<Option<Seq<char>>>,
) -> Seq<char> {
    let a = deprecation_after(field_head_after(s, name, parents) + "\n"@, field.deprecated);
    let b = default_after(a + field.doc@ + "\n\n"@, field) + "\n"@;
    let c = kind_after(b, field) + "\n"@ + "**Example usage**:\n\n"@;
    example_after(c, field, parents) + "\n"@
}

fn write_field_head(output: &mut Vec<char>, name: &str, parents: &Vec<Option<String>>)
    ensures
        final(output)@ == field_head_after(old(output)@, name@, parents_view(parents@)),
{
    let names = named_parents(parents);
    let anchor = itertools_join(&names, "_");
    let level: &str = if parents.len() > 1 {
        "####"
    } else {
        "###"
    };
    extend_str(output, level);
    extend_str(output, " [`");
    extend_str(output, name);
    extend_str(output, "`](#");
    if anchor.as_str().is_empty() {
        extend_str(output, name);
        extend_str(output, ")\n");
    } else {
        extend_str(output, anchor.as_str());
        extend_str(output, "_");
        extend_str(output, name);
        extend_str(output, ")\n");
        extend_str(output, "<span id=\"");
        extend_str(output, name);
        extend_str(output, "\"></span>\n");
    }
}

fn write_deprecation(output: &mut Vec<char>, d: &Option<Deprecated>)
    ensures
        final(output)@ == deprecation_after(old(output)@, *d),
{
    match d {
        Some(dep) => {
            extend_str(output, "!!! warning \"Deprecated\"\n");
            extend_str(output, "    This option has been deprecated");
            match &dep.since {
                Some(since) => {
                    extend_str(output, " in ");
                    extend_str(output, since.as_str());
                },
                None => {},
            }
            extend_str(output, ".");
            match &dep.message {
                Some(message) => {
                    extend_str(output, " ");
                    extend_str(output, message.as_str());
                    extend_str(output, "\n");
                },
                None => {},
            }
            extend_str(output, "\n");
        },
        None => {},
    }
}

fn write_default(output: &mut Vec<char>, field: &OptionField)
    ensures
        final(output)@ == default_after(old(output)@, *field),
{
    match &field.default {
        Some(d) => {
            extend_str(output, "**Default value**: `");
            extend_str(output, d.as_str());
            extend_str(output, "`\n");
        },
        None => {
            extend_str(output, "**Required**\n");
        },
    }
}

fn write_kind(output: &mut Vec<char>, field: &OptionField)
    ensures
        final(output)@ == kind_after(old(output)@, *field),
{
    match &field.possible_values {
        Some(vs) => {
            if vs.len() > 0 {
                extend_str(output, "**Possible values**:\n\n");
                let ghost head = output@;
                let n = vs.len();
                for i in 0..n
                    invariant
                        n == vs@.len(),
                        output@ == value_lines_after(head, views(vs@).take(i as int)),
                {
                    assert(views(vs@).take(i + 1).drop_last() == views(vs@).take(i as int));
                    assert(views(vs@).take(i + 1).last() == vs@[i as int]@);
                    extend_str(output, "- ");
                    extend_str(output, vs[i].as_str());
                    extend_str(output, "\n");
                }
                assert(views(vs@).take(n as int) == views(vs@));
                return ;
            }
        },
        None => {},
    }
    extend_str(output, "**Type**: `");
    extend_str(output, field.value_type.as_str());
    extend_str(output, "`\n");
}

fn write_example(output: &mut Vec<char>, field: &OptionField, parents: &Vec<Option<String>>)
    ensures
        final(output)@ == example_after(old(output)@, *field, parents_view(parents@)),
{
    let top = parents.len() > 0 && parents[0].is_none();
    assert(top == (parents_view(parents@).len() > 0 && parents_view(parents@)[0] is None));
    if top {
        let header = format_header(&field.scope, field.example.as_str(), parents);
        let tab = format_tab("seal.toml", header.as_str(), field.example.as_str());
        extend_str(output, tab.as_str());
    }
}

/// Appends the documentation of an option (see [`field_text_after`]).
fn emit_field(output: &mut Vec<char>, name: &str, field: &OptionField, parents: &Vec<Option<String>>)
    ensures
        final(output)@ == field_text_after(old(output)@, name@, *field, parents_view(parents@)),
{
    write_field_head(output, name, parents);
    extend_str(output, "\n");
    write_deprecation(output, &field.deprecated);
    extend_str(output, field.doc.as_str());
    extend_str(output, "\n\n");
    write_default(output, field);
    extend_str(output, "\n");
    write_kind(output, field);
    extend_str(output, "\n");
    extend_str(output, "**Example usage**:\n\n");
    write_example(output, field, parents);
    extend_str(output, "\n");
}

/// The names of the entries.
pub open spec fn entry_names<T>(e: Seq<(String, T)>) -> Seq<Seq<char>> {
    e.map_values(|x: (String, T)| x.0@)
}

/// The index `j` placed before the first index whose name is not below
/// its own.
pub open spec fn insert_index(order: Seq<int>, names: Seq<Seq<char>>, j: int) -> Seq<int>
    decreases order.len(),
{
    if order.len() == 0 {
        seq![j]
    } else if text_lt(names[order[0]], names[j]) {
        seq![order[0]] + insert_index(order.drop_first(), names, j)
    } else {
        seq![j] + order
    }
}

/// The first `n` indices in ascending order of their names.
pub open spec fn name_order_upto(names: Seq<Seq<char>>, n: int) -> Seq<int>
    decreases n,
{
    if n <= 0 {
        seq![]
    } else {
        insert_index(name_order_upto(names, n - 1), names, n - 1)
    }
}

/// The indices of the names in ascending order of the names
/// (`sort_unstable_by` on unique names).
pub open spec fn name_order(names: Seq<Seq<char>>) -> Seq<int> {
    name_order_upto(names, names.len() as int)
}

proof fn lemma_insert_index(order: Seq<int>, names: Seq<Seq<char>>, j: int, p: int)
    requires
        0 <= p <= order.len(),
        forall|q: int| 0 <= q < p ==> text_lt(names[#[trigger] order[q]], names[j]),
        p < order.len() ==> !text_lt(names[order[p]], names[j]),
    ensures
        insert_index(order, names, j) == order.insert(p, j),
    decreases order.len(),
{
    if order.len() == 0 {
        assert(order.insert(p, j) =~= seq![j]);
    } else if p == 0 {
        assert(order.insert(0, j) =~= seq![j] + order);
    } else {
        let rest = order.drop_first();
        assert forall|q: int| 0 <= q < p - 1 implies text_lt(names[#[trigger] rest[q]], names[j]) by {
            assert(rest[q] == order[q + 1]);
        }
        lemma_insert_index(rest, names, j, p - 1);
        assert(order.insert(p, j) =~= seq![order[0]] + rest.insert(p - 1, j));
    }
}

/// The indices of the entries in ascending order of their names.
fn name_order_of<T>(entries: &Vec<(String, T)>) -> (r: Vec<usize>)
    ensures
        r@.len() == entries@.len(),
        name_order(entry_names(entries@)).len() == entries@.len(),
        forall|k: int|
            0 <= k < r@.len() ==> #[trigger] r@[k] < entries@.len() && r@[k] as int == name_order(
                entry_names(entries@),
            )[k],
{
    let ghost names = entry_names(entries@);
    let n = entries.len();
    let mut order: Vec<usize> = Vec::new();
    let ghost mut so: Seq<int> = seq![];
    for i in 0..n
        invariant
            n == entries@.len(),
            names == entry_names(entries@),
            so == name_order_upto(names, i as int),
            order@.len() == i,
            so.len() == i,
            forall|k: int| 0 <= k < order@.len() ==> #[trigger] order@[k] < i && order@[k] as int == so[k],
    {
        let ic = chars_of(entries[i].0.as_str());
        let m = order.len();
        let mut p: usize = 0;
        while p < m
            invariant
                m == order@.len(),
                m == so.len(),
                p <= m,
                names == entry_names(entries@),
                i < n,
                n == entries@.len(),
                ic@ == names[i as int],
                forall|k: int| 0 <= k < order@.len() ==> #[trigger] order@[k] < i && order@[k] as int == so[k],
                forall|q: int| 0 <= q < p ==> text_lt(names[#[trigger] so[q]], names[i as int]),
            ensures
                p <= m,
                forall|q: int| 0 <= q < p ==> text_lt(names[#[trigger] so[q]], names[i as int]),
                p < m ==> !text_lt(names[so[p as int]], names[i as int]),
            decreases m - p,
        {
            let e = order[p];
            assert(so[p as int] == e as int);
            let ec = chars_of(entries[e].0.as_str());
            if !text_less(ec.as_slice(), ic.as_slice()) {
                break;
            }
            p = p + 1;
        }
        proof {
            lemma_insert_index(so, names, i as int, p as int);
        }
        let ghost old_order = order@;
        order.insert(p, i);
        proof {
            let ns = so.insert(p as int, i as int);
            assert(ns == name_order_upto(names, i + 1));
            assert forall|k: int| 0 <= k < order@.len() implies #[trigger] order@[k] < i + 1
                && order@[k] as int == ns[k] by {
                if k < p {
                    assert(order@[k] == old_order[k]);
                } else if k > p {
                    assert(order@[k] == old_order[k - 1]);
                }
            }
            so = ns;
        }
    }
    order
}

/// `s` followed by the options at the first `k` positions of `order`, each
/// followed by a rule.
pub open spec fn fields_after(
    s: Seq<char>,
    fields: Seq<(String, OptionField)>,
    order: Seq<int>,
    parents: Seq<Option<Seq<char>>>,
    k: int,
) -> Seq<char>
    decreases k,
{
    if k <= 0 || k > order.len() {
        s
    } else {
        let prev = fields_after(s, fields, order, parents, k - 1);
        let j = order[k - 1];
        if 0 <= j < fields.len() {
            field_text_after(prev, fields[j].0@, fields[j].1, parents) + "---\n\n"@
        } else {
            prev
        }
    }
}

/// `s` followed by the heading of a group: `## Configuration` for the top
/// group; for a named one its dotted path and its documentation.
pub open spec fn set_header_after(
    s: Seq<char>,
    name: Option<Seq<char>>,
    set: OptionSet,
    parents: Seq<Option<Seq<char>>>,
) -> Seq<char> {
    match name {
        None => s + "## Configuration\n"@,
        Some(n) => {
            let t = s + "### `"@ + join(parent_names(parents).push(n), "."@) + "`\n\n"@;
            match set.documentation {
                Some(d) => t + d@ + "\n"@ + "\n"@,
                None => t,
            }
        },
    }
}

/// `s` followed by the reference of a group: its heading, its options in
/// ascending order of name (each followed by a rule), then its sub-groups
/// in ascending order of name.
pub open spec fn set_text_after(
    s: Seq<char>,
    name: Option<Seq<char>>,
    set: OptionSet,
    parents: Seq<Option<Seq<char>>>,
) -> Seq<char>
    decreases set, set.sets@.len() + 1,
{
    let ps = parents.push(name);
    let a = fields_after(
        set_header_after(s, name, set, parents),
        set.fields@,
        name_order(entry_names(set.fields@)),
        ps,
        set.fields@.len() as int,
    );
    subsets_after(a, set, ps, set.sets@.len() as int)
}

/// `s` followed by the sub-groups of `set` at the first `k` positions of
/// their name order.
pub open spec fn subsets_after(s: Seq<char>, set: OptionSet, ps: Seq<Option<Seq<char>>>, k: int) -> Seq<
    char,
>
    decreases set, k,
{
    if k <= 0 {
        s
    } else {
        let prev = subsets_after(s, set, ps, k - 1);
        let order = name_order(entry_names(set.sets@));
        if k - 1 < order.len() && 0 <= order[k - 1] < set.sets@.len() {
            let j = order[k - 1];
            set_text_after(prev, Some(set.sets@[j].0@), set.sets@[j].1, ps)
        } else {
            prev
        }
    }
}

/// Appends the heading of a group (see [`set_header_after`]).
fn write_set_header(
    output: &mut Vec<char>,
    name: &Option<String>,
    set: &OptionSet,
    parents: &Vec<Option<String>>,
)
    ensures
        final(output)@ == set_header_after(
            old(output)@,
            crate::text::opt_view(*name),
            *set,
            parents_view(parents@),
        ),
{
    match name {
        None => {
            extend_str(output, "## Configuration\n");
        },
        Some(n) => {
            let mut names = named_parents(parents);
            let ghost base = views(names@);
            let c = n.clone();
            names.push(c);
            assert(views(names@) == base.push(n@));
            let title = itertools_join(&names, ".");
            extend_str(output, "### `");
            extend_str(output, title.as_str());
            extend_str(output, "`\n\n");
            match &set.documentation {
                Some(d) => {
                    extend_str(output, d.as_str());
                    extend_str(output, "\n");
                    extend_str(output, "\n");
                },
                None => {},
            }
        },
    }
}

/// Appends the reference of a group and, in turn, of its sub-groups (see
/// [`set_text_after`]); `parents` are the groups above it, the top one
/// first, and are as they were afterwards.
fn generate_set(
    output: &mut Vec<char>,
    name: Option<String>,
    set: &OptionSet,
    parents: &mut Vec<Option<String>>,
)
    ensures
        final(output)@ == set_text_after(
            old(output)@,
            crate::text::opt_view(name),
            *set,
            parents_view(old(parents)@),
        ),
        final(parents)@ == old(parents)@,
    decreases set,
{
    let ghost pv = parents_view(parents@);
    let ghost nv = crate::text::opt_view(name);
    write_set_header(output, &name, set, parents);
    let ghost head = output@;
    let ghost before = parents@;
    parents.push(name);
    let ghost pushed = parents@;
    assert(pushed.drop_last() == before);
    let ghost ps = parents_view(parents@);
    assert(ps == pv.push(nv));
    let forder = name_order_of(&set.fields);
    let ghost fo = name_order(entry_names(set.fields@));
    let nf = set.fields.len();
    for k in 0..nf
        invariant
            nf == set.fields@.len(),
            forder@.len() == nf,
            fo == name_order(entry_names(set.fields@)),
            fo.len() == nf,
            forall|q: int|
                0 <= q < forder@.len() ==> #[trigger] forder@[q] < nf && forder@[q] as int == fo[q],
            ps == parents_view(parents@),
            parents@ == pushed,
            output@ == fields_after(head, set.fields@, fo, ps, k as int),
    {
        let j = forder[k];
        emit_field(output, set.fields[j].0.as_str(), &set.fields[j].1, parents);
        extend_str(output, "---\n\n");
    }
    let ghost after_fields = output@;
    let sorder = name_order_of(&set.sets);
    let ghost so = name_order(entry_names(set.sets@));
    let ns = set.sets.len();
    for k in 0..ns
        invariant
            ns == set.sets@.len(),
            sorder@.len() == ns,
            so == name_order(entry_names(set.sets@)),
            so.len() == ns,
            forall|q: int|
                0 <= q < sorder@.len() ==> #[trigger] sorder@[q] < ns && sorder@[q] as int == so[q],
            ps == parents_view(parents@),
            parents@ == pushed,
            output@ == subsets_after(after_fields, *set, ps, k as int),
    {
        let j = sorder[k];
        let sub_name = set.sets[j].0.clone();
        generate_set(output, Some(sub_name), &set.sets[j].1, parents);
    }
    let _ = parents.pop();
}

/// The options reference of the configuration (`docs/reference/configuration.md`)
/// from the metadata of its top group.
pub fn generate(metadata: &OptionSet) -> (r: String)
    ensures
        r@ == set_text_after(seq![], None, *metadata, seq![]),
{
    let mut output: Vec<char> = Vec::new();
    let mut parents: Vec<Option<String>> = Vec::new();
    assert(parents_view(parents@) == Seq::<Option<Seq<char>>>::empty());
    generate_set(&mut output, None, metadata, &mut parents);
    string_of(output.as_slice())
}

} // verus!
