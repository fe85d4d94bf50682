//! Editing a cluster's configuration as YAML.

use vstd::prelude::*;
use vstd::string::StringExecFns;

use crate::reply::{Reply, STATUS_BAD_REQUEST, STATUS_OK, STATUS_SERVER_ERROR};

verus! {

/// `c` has the Unicode White_Space property.
pub open spec fn is_white_space(c: char) -> bool {
    ||| ('\u{9}' <= c && c <= '\u{d}')
    ||| c == ' '
    ||| c == '\u{85}'
    ||| c == '\u{a0}'
    ||| c == '\u{1680}'
    ||| ('\u{2000}' <= c && c <= '\u{200a}')
    ||| c == '\u{2028}'
    ||| c == '\u{2029}'
    ||| c == '\u{202f}'
    ||| c == '\u{205f}'
    ||| c == '\u{3000}'
}

/// `text` holds a character that is not white space.
pub open spec fn has_content(text: Seq<char>) -> bool {
    exists|k: int| 0 <= k < text.len() && !is_white_space(#[trigger] text[k])
}

/// Whether the submitted YAML is worth parsing: whether it holds anything but
/// white space.
pub fn is_valid_yaml(yaml_data: &str) -> (valid: bool)
    ensures
        valid == has_content(yaml_data@),
{
    broadcast use vstd::string::group_string_axioms;
    let mut valid = false;
    for c in it: yaml_data.chars()
        invariant
            it.seq() == yaml_data@,
            valid == exists|k: int| 0 <= k < it.index() && !is_white_space(#[trigger] yaml_data@[k]),
    {
        if !(('\u{9}' <= c && c <= '\u{d}') || c == ' ' || c == '\u{85}' || c == '\u{a0}' || c == '\u{1680}'
            || ('\u{2000}' <= c && c <= '\u{200a}') || c == '\u{2028}' || c == '\u{2029}' || c == '\u{202f}'
            || c == '\u{205f}' || c == '\u{3000}') {
            valid = true;
        }
    }
    valid
}

/// `String::push`: appends one character at the end of the string.
#[verifier::external_body]
fn push_char(text: &mut String, c: char)
    ensures
        final(text)@ == old(text)@.push(c),
{
    text.push(c);
}

/// `template` with each `{}` replaced by `value`, the occurrences taken from
/// the left, without overlap.
pub open spec fn fill_placeholders_spec(template: Seq<char>, value: Seq<char>) -> Seq<char>
    decreases template.len(),
{
    if template.len() == 0 {
        Seq::empty()
    } else if template.len() >= 2 && template[0] == '{' && template[1] == '}' {
        value + fill_placeholders_spec(template.skip(2), value)
    } else {
        seq![template[0]] + fill_placeholders_spec(template.skip(1), value)
    }
}

/// Replaces each `{}` of `template` with `value`, as `str::replace` does.
pub fn fill_placeholders(template: &str, value: &str) -> (filled: String)
    ensures
        filled@ == fill_placeholders_spec(template@, value@),
{
    broadcast use vstd::string::group_string_axioms;
    let mut filled = String::new();
    // Whether the last character read is a `{` not yet written out.
    let mut pending = false;
    assert(Seq::<char>::empty() + template@.skip(0) =~= template@);
    assert(filled@ + fill_placeholders_spec(template@, value@) =~= fill_placeholders_spec(template@, value@));
    for c in it: template.chars()
        invariant
            it.seq() == template@,
            fill_placeholders_spec(template@, value@) == filled@ + fill_placeholders_spec(
                (if pending { seq!['{'] } else { Seq::<char>::empty() }) + template@.skip(it.index()),
                value@,
            ),
    {
        let ghost rest = template@.skip(it.index());
        let ghost after = template@.skip(it.index() + 1);
        let ghost before = filled@;
        let ghost goal = fill_placeholders_spec(template@, value@);
        let ghost v = value@;
        assert(rest =~= seq![c] + after);
        assert(rest.skip(1) =~= after);
        if pending {
            let ghost both = seq!['{'] + rest;
            assert(both[0] == '{' && both[1] == c);
            if c == '}' {
                assert(both.skip(2) =~= after);
                assert(fill_placeholders_spec(both, v) == v + fill_placeholders_spec(after, v));
                filled.append(value);
                pending = false;
                assert(Seq::<char>::empty() + after =~= after);
                assert(filled@ + fill_placeholders_spec(after, v) =~= before + (v + fill_placeholders_spec(after, v)));
            } else {
                assert(both.skip(1) =~= rest);
                assert(fill_placeholders_spec(both, v) == seq!['{'] + fill_placeholders_spec(rest, v));
                push_char(&mut filled, '{');
                if c == '{' {
                    assert(seq!['{'] + after =~= rest);
                    assert(filled@ + fill_placeholders_spec(rest, v) =~= before + (seq!['{'] + fill_placeholders_spec(rest, v)));
                } else {
                    assert(fill_placeholders_spec(rest, v) == seq![c] + fill_placeholders_spec(after, v));
                    push_char(&mut filled, c);
                    pending = false;
                    assert(Seq::<char>::empty() + after =~= after);
                    assert(filled@ + fill_placeholders_spec(after, v) =~= before + (seq!['{'] + (seq![c] + fill_placeholders_spec(after, v))));
                }
            }
        } else {
            assert(Seq::<char>::empty() + rest =~= rest);
            if c == '{' {
                pending = true;
            } else {
                assert(fill_placeholders_spec(rest, v) == seq![c] + fill_placeholders_spec(after, v));
                push_char(&mut filled, c);
                assert(Seq::<char>::empty() + after =~= after);
                assert(filled@ + fill_placeholders_spec(after, v) =~= before + (seq![c] + fill_placeholders_spec(after, v)));
            }
        }
    }
    let ghost empty = Seq::<char>::empty();
    assert(template@.skip(template@.len() as int) =~= empty);
    if pending {
        assert(seq!['{'] + empty =~= seq!['{']);
        assert(seq!['{'].skip(1) =~= empty);
        assert(fill_placeholders_spec(empty, value@) =~= empty);
        assert(seq!['{'].len() == 1 && seq!['{'][0] == '{');
        assert(fill_placeholders_spec(seq!['{'], value@) =~= seq!['{']);
        push_char(&mut filled, '{');
    } else {
        assert(empty + empty =~= empty);
        assert(filled@ + fill_placeholders_spec(empty, value@) =~= filled@);
    }
    filled
}

/// `template` holds no `{}`.
pub open spec fn has_no_placeholder(template: Seq<char>) -> bool {
    forall|k: int| 0 <= k < template.len() - 1 ==> !(#[trigger] template[k] == '{' && template[k + 1] == '}')
}

/// A template without `{}` is left as it is, whatever the value.
pub proof fn lemma_fill_without_placeholder(template: Seq<char>, value: Seq<char>)
    requires
        has_no_placeholder(template),
    ensures
        fill_placeholders_spec(template, value) == template,
    decreases template.len(),
{
    if template.len() > 0 {
        let tail = template.skip(1);
        assert forall|k: int| 0 <= k < tail.len() - 1 implies !(#[trigger] tail[k] == '{' && tail[k + 1] == '}') by {
            assert(tail[k] == template[k + 1] && tail[k + 1] == template[k + 2]);
        }
        lemma_fill_without_placeholder(tail, value);
        assert(seq![template[0]] + tail =~= template);
    }
}

/// Filling a template made of two parts fills each part, where the first part
/// does not end with `{`.
pub proof fn lemma_fill_concat(first: Seq<char>, second: Seq<char>, value: Seq<char>)
    requires
        first.len() == 0 || first.last() != '{',
    ensures
        fill_placeholders_spec(first + second, value) == fill_placeholders_spec(first, value)
            + fill_placeholders_spec(second, value),
    decreases first.len(),
{
    if first.len() == 0 {
        assert(first + second =~= second);
        assert(fill_placeholders_spec(first, value) + fill_placeholders_spec(second, value)
            =~= fill_placeholders_spec(second, value));
    } else if first.len() >= 2 && first[0] == '{' && first[1] == '}' {
        let rest = first.skip(2);
        assert((first + second).skip(2) =~= rest + second);
        assert(rest.len() == 0 || rest.last() == first.last());
        lemma_fill_concat(rest, second, value);
        assert(fill_placeholders_spec(first + second, value) =~= fill_placeholders_spec(first, value)
            + fill_placeholders_spec(second, value));
    } else {
        let rest = first.skip(1);
        assert((first + second).skip(1) =~= rest + second);
        assert((first + second)[0] == first[0]);
        if first.len() == 1 {
            assert(first[0] != '{');
        } else {
            assert((first + second)[1] == first[1]);
        }
        assert(rest.len() == 0 || rest.last() == first.last());
        lemma_fill_concat(rest, second, value);
        assert(fill_placeholders_spec(first + second, value) =~= fill_placeholders_spec(first, value)
            + fill_placeholders_spec(second, value));
    }
}

/// Where the main menu is served.
pub const BASE_URL: &'static str = "/";

/// Where the edited YAML of a cluster is saved; `{}` stands for the cluster's name.
pub const YAML_SAVE_URL: &'static str = "/cluster/{}/save";

/// The error shown when the data of a cluster could not be fetched.
pub const DATA_UNAVAILABLE: &'static str = "Les données du cluster n'ont pas pu être récupérées.";

/// The error shown when the data of a cluster could not be written as YAML.
pub const YAML_CONVERSION_FAILED: &'static str = "Erreur lors de la conversion en YAML.";

/// The answer to YAML that holds nothing but white space.
pub const YAML_INVALID: &'static str = "Le contenu YAML n'est pas valide.";

/// The answer to YAML that is not a valid configuration.
pub const YAML_UNPARSABLE: &'static str = "Erreur lors du parsing du YAML.";

/// The answer once the configuration has been saved.
pub const YAML_SAVED: &'static str = "Données enregistrées avec succès.";

/// The answer when the configuration could not be saved.
pub const YAML_NOT_SAVED: &'static str = "Erreur lors de la création du cluster.";

/// Start of the error page, before its message.
pub const ERROR_PAGE_OPEN: &'static str = "
        <html>
        <body>
            <h1>Erreur</h1>
            <p>";
/// Between the message of the error page and the address of the main menu.
pub const ERROR_PAGE_AFTER_MESSAGE: &'static str = "</p>
            <a href=\"";
/// End of the error page, after the address of the main menu.
pub const ERROR_PAGE_CLOSE: &'static str = "\">Retour au Menu Principal</a>
        </body>
        </html>
    ";
/// Start of the editing page of a cluster, before its name.
pub const EDIT_PAGE_OPEN: &'static str = "
    <!DOCTYPE html>
    <html lang=\"fr\">
    <head>
        <meta charset=\"UTF-8\">
        <meta name=\"viewport\" content=\"width=device-width, initial-scale=1.0\">
        <title>Configuration Cluster</title>
        <link rel=\"stylesheet\" href=\"/static/styles.css\"> <!-- Lien vers le CSS externe -->
    </head>
    <body>
        <h1>Configuration Cluster: ";
/// Between the name of the cluster and the address of the main menu.
pub const EDIT_PAGE_AFTER_NAME: &'static str = "</h1>
        <nav>
            <a href=\"";
/// Between the address of the main menu and the YAML being edited.
pub const EDIT_PAGE_AFTER_MENU: &'static str = "\">Menu Principal</a>
            <button id=\"saveButton\">Enregistrer</button>
        </nav>
        
        <section id=\"yamlEditor\">
            <h2>Général</h2>
            <textarea id=\"yamlContent\">";
/// Between the YAML being edited and the address the edited YAML is saved to.
pub const EDIT_PAGE_AFTER_YAML: &'static str = "</textarea>
        </section>

        <footer>
            <h2>Documentation</h2>
            <a href=\"https://budimanjojo.github.io/talhelper/latest/reference/configuration/\">Variable</a>
        </footer>
        <script>
            document.getElementById('saveButton').addEventListener('click', async function() {
                const yamlContent = document.getElementById('yamlContent').value;
                const response = await fetch(`";
/// End of the editing page, after the address the edited YAML is saved to.
pub const EDIT_PAGE_CLOSE: &'static str = "`, {
                    method: 'POST',
                    headers: { 'Content-Type': 'application/json' },
                    body: JSON.stringify(yamlContent)
                });
                if (response.ok) {
                    alert('Le contenu YAML a été enregistré !');
                    window.location.reload();
                } else {
                    alert('Erreur lors de l\\'enregistrement du YAML.');
                }
            });
        </script>
    </body>
    </html>
    ";

/// The error page that shows `message` and leads back to the main menu.
pub open spec fn error_page_body(message: Seq<char>) -> Seq<char> {
    ERROR_PAGE_OPEN@ + message + ERROR_PAGE_AFTER_MESSAGE@ + BASE_URL@ + ERROR_PAGE_CLOSE@
}

/// The editing page of the cluster `cluster_name`, showing `yaml_content`,
/// which saves to the cluster's save address.
pub open spec fn edit_page_body(cluster_name: Seq<char>, yaml_content: Seq<char>) -> Seq<char> {
    EDIT_PAGE_OPEN@ + cluster_name + EDIT_PAGE_AFTER_NAME@ + BASE_URL@ + EDIT_PAGE_AFTER_MENU@
        + yaml_content + EDIT_PAGE_AFTER_YAML@ + fill_placeholders_spec(YAML_SAVE_URL@, cluster_name)
        + EDIT_PAGE_CLOSE@
}

/// The error page: an HTML page answered with 200 that shows `message` and
/// leads back to the main menu.
pub fn render_error(message: &str) -> (reply: Reply)
    ensures
        reply.status == STATUS_OK,
        reply.html,
        reply.body@ == error_page_body(message@),
        reply.body@ == ERROR_PAGE_OPEN@ + message@ + ERROR_PAGE_AFTER_MESSAGE@ + BASE_URL@ + ERROR_PAGE_CLOSE@,
{
    let mut page = String::from_str(ERROR_PAGE_OPEN);
    page.append(message);
    page.append(ERROR_PAGE_AFTER_MESSAGE);
    page.append(BASE_URL);
    page.append(ERROR_PAGE_CLOSE);
    Reply { status: STATUS_OK, html: true, body: page }
}

/// The editing page of the cluster `cluster_name` with its configuration
/// `yaml_content`.
pub fn render_html(cluster_name: &str, yaml_content: &str) -> (page: String)
    ensures
        page@ == edit_page_body(cluster_name@, yaml_content@),
        page@ == EDIT_PAGE_OPEN@ + cluster_name@ + EDIT_PAGE_AFTER_NAME@ + BASE_URL@ + EDIT_PAGE_AFTER_MENU@
            + yaml_content@ + EDIT_PAGE_AFTER_YAML@ + "/cluster/"@ + cluster_name@ + "/save"@ + EDIT_PAGE_CLOSE@,
{
    proof {
        lemma_edit_page_body(cluster_name@, yaml_content@);
    }
    let save_url = fill_placeholders(YAML_SAVE_URL, cluster_name);
    let mut page = String::from_str(EDIT_PAGE_OPEN);
    page.append(cluster_name);
    page.append(EDIT_PAGE_AFTER_NAME);
    page.append(BASE_URL);
    page.append(EDIT_PAGE_AFTER_MENU);
    page.append(yaml_content);
    page.append(EDIT_PAGE_AFTER_YAML);
    page.append(save_url.as_str());
    page.append(EDIT_PAGE_CLOSE);
    page
}

/// Why the configuration of a cluster could not be shown for editing.
#[derive(Debug, Clone, Copy, PartialEq, Eq)]
pub enum EditFailure {
    /// Its data could not be fetched from its data source.
    Unavailable,
    /// Its data could not be written as YAML.
    NotSerializable,
}

/// The answer to a request to edit the cluster `cluster_name`, given its
/// configuration as YAML or why that could not be had: the editing page, or
/// the error page with the message that says which step failed. Both are
/// HTML pages answered with 200.
pub fn edit_cluster_page(cluster_name: &str, yaml: Result<String, EditFailure>) -> (reply: Reply)
    ensures
        reply.status == STATUS_OK,
        reply.html,
        yaml is Ok ==> reply.body@ == edit_page_body(cluster_name@, yaml->Ok_0@),
        yaml == Err::<String, EditFailure>(EditFailure::Unavailable) ==> reply.body@ == error_page_body(
            DATA_UNAVAILABLE@,
        ),
        yaml == Err::<String, EditFailure>(EditFailure::NotSerializable) ==> reply.body@ == error_page_body(
            YAML_CONVERSION_FAILED@,
        ),
{
    match yaml {
        Ok(content) => Reply { status: STATUS_OK, html: true, body: render_html(cluster_name, content.as_str()) },
        Err(EditFailure::Unavailable) => render_error(DATA_UNAVAILABLE),
        Err(EditFailure::NotSerializable) => render_error(YAML_CONVERSION_FAILED),
    }
}

/// What became of a submitted YAML configuration.
#[derive(Debug, Clone, Copy, PartialEq, Eq)]
pub enum SaveOutcome {
    /// It held nothing but white space.
    Invalid,
    /// It is not a valid configuration.
    Unparsable,
    /// It was written to the data source.
    Saved,
    /// The data source refused it.
    NotSaved,
}

/// The plain text answer to a submitted YAML configuration: 400 where it was
/// empty or could not be parsed, 200 where it was saved, 500 where the data
/// source refused it, each with its message.
pub fn save_yaml_reply(outcome: SaveOutcome) -> (reply: Reply)
    ensures
        !reply.html,
        outcome == SaveOutcome::Invalid ==> reply.status == STATUS_BAD_REQUEST && reply.body@ == YAML_INVALID@,
        outcome == SaveOutcome::Unparsable ==> reply.status == STATUS_BAD_REQUEST && reply.body@
            == YAML_UNPARSABLE@,
        outcome == SaveOutcome::Saved ==> reply.status == STATUS_OK && reply.body@ == YAML_SAVED@,
        outcome == SaveOutcome::NotSaved ==> reply.status == STATUS_SERVER_ERROR && reply.body@
            == YAML_NOT_SAVED@,
{
    let (status, message) = match outcome {
        SaveOutcome::Invalid => (STATUS_BAD_REQUEST, YAML_INVALID),
        SaveOutcome::Unparsable => (STATUS_BAD_REQUEST, YAML_UNPARSABLE),
        SaveOutcome::Saved => (STATUS_OK, YAML_SAVED),
        SaveOutcome::NotSaved => (STATUS_SERVER_ERROR, YAML_NOT_SAVED),
    };
    Reply { status, html: false, body: String::from_str(message) }
}

/// The address the edited YAML of the cluster `cluster_name` is saved to:
/// `/cluster/<name>/save`.
pub proof fn lemma_save_url(cluster_name: Seq<char>)
    ensures
        fill_placeholders_spec(YAML_SAVE_URL@, cluster_name) == "/cluster/"@ + cluster_name + "/save"@,
{
    reveal_strlit("/cluster/{}/save");
    reveal_strlit("/cluster/");
    reveal_strlit("/save");
    let url = YAML_SAVE_URL@;
    let head = "/cluster/"@;
    let tail = "/save"@;
    assert(url =~= head + (seq!['{', '}'] + tail));
    lemma_fill_concat(head, seq!['{', '}'] + tail, cluster_name);
    assert(has_no_placeholder(head));
    lemma_fill_without_placeholder(head, cluster_name);
    assert((seq!['{', '}'] + tail).skip(2) =~= tail);
    assert(has_no_placeholder(tail));
    lemma_fill_without_placeholder(tail, cluster_name);
}

/// The characters that count as white space are those of the Unicode
/// White_Space property, which `str::trim` removes.
pub proof fn lemma_white_space_is_unicode(c: char)
    ensures
        is_white_space(c) <==> (c == '\t' || c == '\n' || c == '\u{b}' || c == '\u{c}' || c == '\r' || c == ' '
            || c == '\u{85}' || c == '\u{a0}' || c == '\u{1680}' || ('\u{2000}' <= c && c <= '\u{200a}')
            || c == '\u{2028}' || c == '\u{2029}' || c == '\u{202f}' || c == '\u{205f}' || c == '\u{3000}'),
{
}

/// Empty text is blank.
pub proof fn lemma_has_content_empty()
    ensures
        !has_content(Seq::<char>::empty()),
{
}

/// A single character has content exactly when it is not white space,
/// whatever character it is.
pub proof fn lemma_has_content_single(c: char)
    ensures
        has_content(seq![c]) <==> !is_white_space(c),
{
    if !is_white_space(c) {
        assert(seq![c][0] == c);
    }
}

/// Text made of two parts has content exactly when one of the parts has:
/// where a character stands does not matter, nor what stands before it.
pub proof fn lemma_has_content_concat(first: Seq<char>, second: Seq<char>)
    ensures
        has_content(first + second) <==> (has_content(first) || has_content(second)),
{
    let whole = first + second;
    if has_content(whole) {
        let k = choose|k: int| 0 <= k < whole.len() && !is_white_space(#[trigger] whole[k]);
        if k < first.len() {
            assert(first[k] == whole[k]);
        } else {
            assert(second[k - first.len()] == whole[k]);
        }
    }
    if has_content(first) {
        let k = choose|k: int| 0 <= k < first.len() && !is_white_space(#[trigger] first[k]);
        assert(whole[k] == first[k]);
    }
    if has_content(second) {
        let k = choose|k: int| 0 <= k < second.len() && !is_white_space(#[trigger] second[k]);
        assert(whole[first.len() + k] == second[k]);
    }
}

/// Filling empty text gives empty text.
pub proof fn lemma_fill_empty(value: Seq<char>)
    ensures
        fill_placeholders_spec(Seq::<char>::empty(), value) == Seq::<char>::empty(),
{
}

/// A lone `{}` is replaced by the value.
pub proof fn lemma_fill_placeholder(value: Seq<char>)
    ensures
        fill_placeholders_spec(seq!['{', '}'], value) == value,
{
    let t = seq!['{', '}'];
    assert(t.len() == 2 && t[0] == '{' && t[1] == '}');
    assert(t.skip(2) =~= Seq::<char>::empty());
    assert(fill_placeholders_spec(Seq::<char>::empty(), value) =~= Seq::<char>::empty());
    assert(value + Seq::<char>::empty() =~= value);
}

/// A single character is kept as it is.
pub proof fn lemma_fill_single(c: char, value: Seq<char>)
    ensures
        fill_placeholders_spec(seq![c], value) == seq![c],
{
    let t = seq![c];
    assert(t.len() == 1 && t[0] == c);
    assert(t.skip(1) =~= Seq::<char>::empty());
    assert(fill_placeholders_spec(Seq::<char>::empty(), value) =~= Seq::<char>::empty());
    assert(t + Seq::<char>::empty() =~= t);
}

/// A `{` that is not followed by `}` is kept, and the rest is filled.
pub proof fn lemma_fill_open_brace(rest: Seq<char>, value: Seq<char>)
    requires
        rest.len() == 0 || rest[0] != '}',
    ensures
        fill_placeholders_spec(seq!['{'] + rest, value) == seq!['{'] + fill_placeholders_spec(rest, value),
{
    let t = seq!['{'] + rest;
    assert(t.skip(1) =~= rest);
    assert(t[0] == '{');
    if rest.len() > 0 {
        assert(t[1] == rest[0]);
    }
}

/// The editing page shows, in this order: the cluster's name, the address of
/// the main menu, the configuration exactly as given, and the address
/// `/cluster/<name>/save` it is saved to.
pub proof fn lemma_edit_page_body(cluster_name: Seq<char>, yaml_content: Seq<char>)
    ensures
        edit_page_body(cluster_name, yaml_content) == EDIT_PAGE_OPEN@ + cluster_name + EDIT_PAGE_AFTER_NAME@
            + BASE_URL@ + EDIT_PAGE_AFTER_MENU@ + yaml_content + EDIT_PAGE_AFTER_YAML@ + "/cluster/"@ + cluster_name
            + "/save"@ + EDIT_PAGE_CLOSE@,
{
    lemma_save_url(cluster_name);
    assert(edit_page_body(cluster_name, yaml_content) =~= EDIT_PAGE_OPEN@ + cluster_name + EDIT_PAGE_AFTER_NAME@
        + BASE_URL@ + EDIT_PAGE_AFTER_MENU@ + yaml_content + EDIT_PAGE_AFTER_YAML@ + ("/cluster/"@ + cluster_name
        + "/save"@) + EDIT_PAGE_CLOSE@);
}

/// The configuration stands verbatim in the editing page, between the
/// address of the main menu and the end of the text area: the characters
/// there are exactly those given, whatever they are.
pub proof fn lemma_edit_page_shows_yaml(cluster_name: Seq<char>, yaml_content: Seq<char>)
    ensures
        ({
            let page = edit_page_body(cluster_name, yaml_content);
            let start = (EDIT_PAGE_OPEN@ + cluster_name + EDIT_PAGE_AFTER_NAME@ + BASE_URL@
                + EDIT_PAGE_AFTER_MENU@).len() as int;
            &&& page.subrange(0, start) == EDIT_PAGE_OPEN@ + cluster_name + EDIT_PAGE_AFTER_NAME@ + BASE_URL@
                + EDIT_PAGE_AFTER_MENU@
            &&& page.subrange(start, start + yaml_content.len()) == yaml_content
            &&& page.subrange(start + yaml_content.len(), start + yaml_content.len()
                + EDIT_PAGE_AFTER_YAML@.len()) == EDIT_PAGE_AFTER_YAML@
        }),
{
    lemma_edit_page_body(cluster_name, yaml_content);
    let head = EDIT_PAGE_OPEN@ + cluster_name + EDIT_PAGE_AFTER_NAME@ + BASE_URL@ + EDIT_PAGE_AFTER_MENU@;
    let tail = "/cluster/"@ + cluster_name + "/save"@ + EDIT_PAGE_CLOSE@;
    let page = edit_page_body(cluster_name, yaml_content);
    assert(page =~= head + yaml_content + EDIT_PAGE_AFTER_YAML@ + tail);
    let start = head.len() as int;
    assert(page.subrange(0, start) =~= head);
    assert(page.subrange(start, start + yaml_content.len()) =~= yaml_content);
    assert(page.subrange(start + yaml_content.len(), start + yaml_content.len() + EDIT_PAGE_AFTER_YAML@.len())
        =~= EDIT_PAGE_AFTER_YAML@);
}

/// The error page shows the message exactly as given, then leads back to the
/// main menu.
pub proof fn lemma_error_page_body(message: Seq<char>)
    ensures
        error_page_body(message) == ERROR_PAGE_OPEN@ + message + ERROR_PAGE_AFTER_MESSAGE@ + BASE_URL@
            + ERROR_PAGE_CLOSE@,
{
}

} // verus!
