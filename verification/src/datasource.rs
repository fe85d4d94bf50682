//! The data sources: the page that manages them and the replies to the
//! changes made to the clusters they hold.

use vstd::prelude::*;
use vstd::string::StringExecFns;

use crate::reply::{Reply, STATUS_OK};

verus! {

/// The message that answers the update of a cluster's configuration.
pub const CLUSTER_UPDATED: &'static str = "Cluster updated successfully!";

/// The message that answers the deletion of a cluster from its data source.
pub const CLUSTER_SOURCE_DELETED: &'static str = "Cluster source deleted successfully!";

/// The message that answers the update of a cluster in its database.
pub const CLUSTER_SOURCE_UPDATED: &'static str = "Cluster source updated successfully!";

/// A plain text answer with status 200.
fn ok_text(message: &str) -> (reply: Reply)
    ensures
        reply.status == STATUS_OK,
        !reply.html,
        reply.body@ == message@,
{
    Reply { status: STATUS_OK, html: false, body: String::from_str(message) }
}

/// The answer once a cluster's configuration has been written to its data
/// source: 200, "Cluster updated successfully!".
pub fn cluster_updated_reply() -> (reply: Reply)
    ensures
        reply.status == STATUS_OK,
        !reply.html,
        reply.body@ == CLUSTER_UPDATED@,
{
    ok_text(CLUSTER_UPDATED)
}

/// The answer once a cluster has been removed from its data source: 200,
/// "Cluster source deleted successfully!".
pub fn cluster_source_deleted_reply() -> (reply: Reply)
    ensures
        reply.status == STATUS_OK,
        !reply.html,
        reply.body@ == CLUSTER_SOURCE_DELETED@,
{
    ok_text(CLUSTER_SOURCE_DELETED)
}

/// The answer once a cluster's rows have been updated in its database: 200,
/// "Cluster source updated successfully!".
pub fn cluster_source_updated_reply() -> (reply: Reply)
    ensures
        reply.status == STATUS_OK,
        !reply.html,
        reply.body@ == CLUSTER_SOURCE_UPDATED@,
{
    ok_text(CLUSTER_SOURCE_UPDATED)
}

/// Opening of the data sources page, up to the body of the sources table.
pub const SOURCES_HEAD: &'static str = "<!DOCTYPE html>
    <html lang=\"fr\">
    <head>
        <meta charset=\"UTF-8\">
        <meta name=\"viewport\" content=\"width=device-width, initial-scale=1.0\">
        <title>Gestion des Sources</title>
        <style>
            /* Styles pour la page */
            body {
                font-family: Arial, sans-serif;
                background-color: #f4f4f4;
                margin: 0;
                padding: 20px;
            }
            table {
                width: 100%;
                border-collapse: collapse;
                margin: 20px 0;
            }
            th, td {
                padding: 10px;
                text-align: center;
                border: 1px solid #ddd;
            }
            th {
                background-color: #4CAF50;
                color: white;
            }
            .button {
                background-color: #4CAF50;
                color: white;
                padding: 10px 15px;
                border: none;
                cursor: pointer;
            }
            .button:hover {
                background-color: #45a049;
            }
        </style>
    </head>
    <body>

    <h1>Liste des Sources de Données</h1>
    <table>
        <thead>
            <tr>
                <th>Nom de la Source</th>
                <th>Modifier</th>
                <th>Supprimer</th>
            </tr>
        </thead>
        <tbody>";
/// Start of the table row of a data source, before its name.
pub const SOURCE_ROW_OPEN: &'static str = "<tr>
                <td>";
/// Between the name of a data source and the name passed to the edit button.
pub const SOURCE_ROW_AFTER_NAME: &'static str = "</td>
                <td><button class=\"button\" onclick=\"editSource('";
/// Between the edit button and the name passed to the delete button.
pub const SOURCE_ROW_AFTER_EDIT: &'static str = "')\">Modifier</button></td>
                <td><button class=\"button\" onclick=\"deleteSource('";
/// End of the table row of a data source.
pub const SOURCE_ROW_CLOSE: &'static str = "')\">Supprimer</button></td>
            </tr>";
/// End of the data sources page, after the sources table.
pub const SOURCES_TAIL: &'static str = "</tbody>
    </table>

    <h2>Ajouter une Source</h2>
    <form id=\"addSourceForm\" onsubmit=\"addSource(); return false;\">
        <input type=\"text\" id=\"sourceName\" name=\"source_name\" placeholder=\"Nom de la Source\" required>
        <button class=\"button\">Ajouter</button>
    </form>

    <script>
        // Fonction pour supprimer une source
        async function deleteSource(sourceName) {
            console.log(`Suppression de la source : ${sourceName}`);
            const response = await fetch(`/source/${sourceName}/delete`, { method: 'DELETE' });
            if (response.ok) {
                window.location.reload();
            } else {
                alert('Échec de la suppression de la source.');
            }
        }

        // Fonction pour ajouter une nouvelle source
        async function addSource() {
            const sourceName = document.getElementById(\"sourceName\").value;
            console.log(`Ajout de la source : ${sourceName}`);
            const response = await fetch(`/source/create`, {
                method: 'POST',
                headers: {
                    'Content-Type': 'application/json'
                },
                body: JSON.stringify(sourceName)
            });
            if (response.ok) {
                window.location.reload();
            } else {
                alert('Échec de l\\'ajout de la source.');
            }
        }

        // Fonction pour modifier une source
        async function editSource(sourceName) {
            console.log(`Édition de la source : ${sourceName}`);
            window.location.href = `/source/${sourceName}/edit`;
        }
    </script>

    </body>
    </html>";

/// The table row of one data source: its name and the buttons to edit and
/// delete it, each of which names it.
pub open spec fn source_row(name: Seq<char>) -> Seq<char> {
    SOURCE_ROW_OPEN@ + name + SOURCE_ROW_AFTER_NAME@ + name + SOURCE_ROW_AFTER_EDIT@ + name
        + SOURCE_ROW_CLOSE@
}

/// The rows of the data sources table, one per source, in order.
pub open spec fn source_rows(sources: Seq<String>) -> Seq<char>
    decreases sources.len(),
{
    if sources.len() == 0 {
        Seq::empty()
    } else {
        source_rows(sources.drop_last()) + source_row(sources.last()@)
    }
}

/// The data sources page: the table of the sources, then the form that adds one.
pub open spec fn sources_page_body(sources: Seq<String>) -> Seq<char> {
    SOURCES_HEAD@ + source_rows(sources) + SOURCES_TAIL@
}

/// Appends the table row of one data source.
fn append_source_row(page: &mut String, name: &String)
    ensures
        final(page)@ == old(page)@ + source_row(name@),
{
    page.append(SOURCE_ROW_OPEN);
    page.append(name.as_str());
    page.append(SOURCE_ROW_AFTER_NAME);
    page.append(name.as_str());
    page.append(SOURCE_ROW_AFTER_EDIT);
    page.append(name.as_str());
    page.append(SOURCE_ROW_CLOSE);
    assert(final(page)@ =~= old(page)@ + source_row(name@));
}

/// The data sources page, an HTML page answered with 200, with a row for each
/// of the given sources, in order.
pub fn sources_page(sources: &Vec<String>) -> (reply: Reply)
    ensures
        reply.status == STATUS_OK,
        reply.html,
        reply.body@ == sources_page_body(sources@),
        reply.body@ == SOURCES_HEAD@ + source_rows(sources@) + SOURCES_TAIL@,
{
    let mut page = String::from_str(SOURCES_HEAD);
    let mut i: usize = 0;
    while i < sources.len()
        invariant
            i <= sources.len(),
            page@ == SOURCES_HEAD@ + source_rows(sources@.take(i as int)),
        decreases sources.len() - i,
    {
        assert(sources@.take(i + 1).drop_last() =~= sources@.take(i as int));
        append_source_row(&mut page, &sources[i]);
        i = i + 1;
    }
    assert(sources@.take(sources.len() as int) =~= sources@);
    page.append(SOURCES_TAIL);
    Reply { status: STATUS_OK, html: true, body: page }
}

/// There are no source rows without data sources.
pub proof fn lemma_source_rows_empty()
    ensures
        source_rows(Seq::<String>::empty()) == Seq::<char>::empty(),
{
}

/// The rows of the data sources are built one per source, in order: one more
/// source adds, after the rows already there, its own row, which shows its
/// name and names it, and only it, in its edit and delete buttons.
pub proof fn lemma_source_rows_push(sources: Seq<String>, source: String)
    ensures
        source_rows(sources.push(source)) == source_rows(sources) + (SOURCE_ROW_OPEN@ + source@
            + SOURCE_ROW_AFTER_NAME@ + source@ + SOURCE_ROW_AFTER_EDIT@ + source@ + SOURCE_ROW_CLOSE@),
{
    assert(sources.push(source).drop_last() =~= sources);
}

/// Adding a data source to the sources page inserts its row right after the
/// rows of the others, and leaves the rest of the page as it was.
pub proof fn lemma_sources_page_push(sources: Seq<String>, source: String)
    ensures
        ({
            let page = sources_page_body(sources);
            let split = (SOURCES_HEAD@.len() + source_rows(sources).len()) as int;
            sources_page_body(sources.push(source)) == page.take(split) + (SOURCE_ROW_OPEN@ + source@
                + SOURCE_ROW_AFTER_NAME@ + source@ + SOURCE_ROW_AFTER_EDIT@ + source@ + SOURCE_ROW_CLOSE@)
                + page.skip(split)
        }),
{
    lemma_source_rows_push(sources, source);
    let page = sources_page_body(sources);
    let split = (SOURCES_HEAD@.len() + source_rows(sources).len()) as int;
    let head = SOURCES_HEAD@ + source_rows(sources);
    assert(page =~= head + SOURCES_TAIL@);
    assert(page.take(split) =~= head);
    assert(page.skip(split) =~= SOURCES_TAIL@);
    assert(sources_page_body(sources.push(source)) =~= page.take(split) + (SOURCE_ROW_OPEN@ + source@
        + SOURCE_ROW_AFTER_NAME@ + source@ + SOURCE_ROW_AFTER_EDIT@ + source@ + SOURCE_ROW_CLOSE@)
        + page.skip(split));
}

} // verus!
