//! The clusters of all data sources: the combined listing, the replies to the
//! creation and deletion of a cluster, and the clusters page.

use vstd::prelude::*;
use vstd::string::StringExecFns;

use crate::reply::{Reply, STATUS_CREATED, STATUS_OK, STATUS_SERVER_ERROR};

verus! {

/// Opening of the message that stands in the listing for a data source that
/// could not be read.
pub const SOURCE_ERROR_PREFIX: &'static str = "Erreur avec la source ";

/// Between the name of that data source and the description of its error.
pub const SOURCE_ERROR_SEPARATOR: &'static str = ": ";

/// The views of a sequence of strings.
pub open spec fn string_views(strings: Seq<String>) -> Seq<Seq<char>> {
    strings.map_values(|s: String| s@)
}

/// The entry that stands in the listing for a data source that could not be
/// read: its name and the description of the error.
pub open spec fn source_error_entry(source: Seq<char>, detail: Seq<char>) -> Seq<char> {
    SOURCE_ERROR_PREFIX@ + source + SOURCE_ERROR_SEPARATOR@ + detail
}

/// What one data source contributes to the listing: its clusters in order,
/// or one error entry.
pub open spec fn source_entries(source: String, outcome: Result<Vec<String>, String>) -> Seq<Seq<char>> {
    match outcome {
        Ok(clusters) => string_views(clusters@),
        Err(detail) => seq![source_error_entry(source@, detail@)],
    }
}

/// The listing of the clusters of all data sources, each paired with what
/// reading it gave: the entries of each source, the sources in order.
pub open spec fn cluster_listing(results: Seq<(String, Result<Vec<String>, String>)>) -> Seq<Seq<char>>
    decreases results.len(),
{
    if results.len() == 0 {
        Seq::empty()
    } else {
        cluster_listing(results.drop_last()) + source_entries(results.last().0, results.last().1)
    }
}

/// Builds the entry that stands for a data source that could not be read.
pub fn source_error_message(source: &str, detail: &str) -> (message: String)
    ensures
        message@ == source_error_entry(source@, detail@),
        message@ == SOURCE_ERROR_PREFIX@ + source@ + SOURCE_ERROR_SEPARATOR@ + detail@,
{
    let mut message = String::from_str(SOURCE_ERROR_PREFIX);
    message.append(source);
    message.append(SOURCE_ERROR_SEPARATOR);
    message.append(detail);
    message
}

/// Adds to `listing` what one data source contributes: the clusters it holds,
/// or, where it could not be read, one entry that names it and the error.
pub fn record_source_outcome(listing: &mut Vec<String>, source: &String, outcome: &Result<Vec<String>, String>)
    ensures
        string_views(final(listing)@) == string_views(old(listing)@) + source_entries(*source, *outcome),
        forall|k: int| 0 <= k < old(listing)@.len() ==> #[trigger] final(listing)@[k]@ == old(listing)@[k]@,
        outcome is Ok ==> final(listing)@.len() == old(listing)@.len() + outcome->Ok_0@.len(),
        outcome is Ok ==> forall|k: int|
            0 <= k < outcome->Ok_0@.len() ==> #[trigger] final(listing)@[old(listing)@.len() + k]@
                == outcome->Ok_0@[k]@,
        outcome is Err ==> final(listing)@.len() == old(listing)@.len() + 1,
        outcome is Err ==> final(listing)@[old(listing)@.len() as int]@ == SOURCE_ERROR_PREFIX@ + source@
            + SOURCE_ERROR_SEPARATOR@ + outcome->Err_0@,
{
    let ghost initial = listing@;
    match outcome {
        Ok(clusters) => {
            let ghost start = string_views(listing@);
            let mut j: usize = 0;
            while j < clusters.len()
                invariant
                    j <= clusters.len(),
                    string_views(listing@) == start + string_views(clusters@).take(j as int),
                decreases clusters.len() - j,
            {
                let cluster = clusters[j].clone();
                let ghost before = listing@;
                listing.push(cluster);
                assert(string_views(listing@) =~= string_views(before).push(cluster@));
                assert(string_views(clusters@).take(j + 1) =~= string_views(clusters@).take(j as int).push(
                    clusters@[j as int]@,
                ));
                j = j + 1;
            }
            assert(string_views(clusters@).take(clusters.len() as int) =~= string_views(clusters@));
        },
        Err(detail) => {
            let ghost before = listing@;
            let message = source_error_message(source.as_str(), detail.as_str());
            listing.push(message);
            assert(string_views(listing@) =~= string_views(before).push(message@));
        },
    }
    proof {
        assert forall|k: int| 0 <= k < initial.len() implies #[trigger] listing@[k]@ == initial[k]@ by {
            assert(string_views(listing@)[k] == string_views(initial)[k]);
        }
        if outcome is Ok {
            let clusters = outcome->Ok_0;
            assert forall|k: int| 0 <= k < clusters@.len() implies #[trigger] listing@[initial.len() + k]@
                == clusters@[k]@ by {
                assert(string_views(listing@)[initial.len() + k] == string_views(clusters@)[k]);
            }
        } else {
            assert(string_views(listing@)[initial.len() as int] == source_entries(*source, *outcome)[0]);
        }
    }
}

/// The listing of the clusters of all data sources, given what reading each
/// source gave: the clusters of each readable source, and one error entry for
/// each source that could not be read, the sources in the order given.
pub fn collect_cluster_listing(results: &Vec<(String, Result<Vec<String>, String>)>) -> (listing: Vec<String>)
    ensures
        string_views(listing@) == cluster_listing(results@),
        listing@.len() == cluster_listing(results@).len(),
        forall|k: int| 0 <= k < listing@.len() ==> #[trigger] listing@[k]@ == cluster_listing(results@)[k],
{
    let mut listing: Vec<String> = Vec::new();
    let mut i: usize = 0;
    while i < results.len()
        invariant
            i <= results.len(),
            string_views(listing@) == cluster_listing(results@.take(i as int)),
        decreases results.len() - i,
    {
        assert(results@.take(i + 1).drop_last() =~= results@.take(i as int));
        record_source_outcome(&mut listing, &results[i].0, &results[i].1);
        i = i + 1;
    }
    assert(results@.take(results.len() as int) =~= results@);
    assert forall|k: int| 0 <= k < listing@.len() implies #[trigger] listing@[k]@ == cluster_listing(results@)[k] by {
        assert(string_views(listing@)[k] == listing@[k]@);
    }
    listing
}

/// Without any data source the listing is empty.
pub proof fn lemma_cluster_listing_empty()
    ensures
        cluster_listing(Seq::<(String, Result<Vec<String>, String>)>::empty()).len() == 0,
{
}

/// A readable data source adds exactly its clusters to the listing, in order,
/// after the entries already there, which stay as they were.
pub proof fn lemma_cluster_listing_readable(
    results: Seq<(String, Result<Vec<String>, String>)>,
    source: String,
    clusters: Vec<String>,
)
    ensures
        ({
            let before = cluster_listing(results);
            let after = cluster_listing(results.push((source, Ok(clusters))));
            &&& after.len() == before.len() + clusters@.len()
            &&& forall|k: int| 0 <= k < before.len() ==> #[trigger] after[k] == before[k]
            &&& forall|k: int| 0 <= k < clusters@.len() ==> #[trigger] after[before.len() + k] == clusters@[k]@
        }),
{
    let pushed = results.push((source, Ok::<Vec<String>, String>(clusters)));
    assert(pushed.drop_last() =~= results);
    let before = cluster_listing(results);
    let after = cluster_listing(pushed);
    assert forall|k: int| 0 <= k < clusters@.len() implies #[trigger] after[before.len() + k] == clusters@[k]@ by {
        assert(string_views(clusters@)[k] == clusters@[k]@);
    }
}

/// A data source that could not be read adds exactly one entry to the
/// listing, after the entries already there: the message that names the
/// source and describes the error.
pub proof fn lemma_cluster_listing_unreadable(
    results: Seq<(String, Result<Vec<String>, String>)>,
    source: String,
    detail: String,
)
    ensures
        cluster_listing(results.push((source, Err(detail)))) == cluster_listing(results).push(
            SOURCE_ERROR_PREFIX@ + source@ + SOURCE_ERROR_SEPARATOR@ + detail@,
        ),
{
    let pushed = results.push((source, Err::<Vec<String>, String>(detail)));
    assert(pushed.drop_last() =~= results);
    assert(cluster_listing(pushed) =~= cluster_listing(results).push(
        SOURCE_ERROR_PREFIX@ + source@ + SOURCE_ERROR_SEPARATOR@ + detail@,
    ));
}

/// The listing is built source by source: the listing of two runs of data
/// sources, one after the other, is the listing of the first run followed by
/// the listing of the second.
pub proof fn lemma_cluster_listing_concat(
    first: Seq<(String, Result<Vec<String>, String>)>,
    second: Seq<(String, Result<Vec<String>, String>)>,
)
    ensures
        cluster_listing(first + second) == cluster_listing(first) + cluster_listing(second),
    decreases second.len(),
{
    if second.len() == 0 {
        assert(first + second =~= first);
        assert(cluster_listing(first) + cluster_listing(second) =~= cluster_listing(first));
    } else {
        lemma_cluster_listing_concat(first, second.drop_last());
        assert((first + second).drop_last() =~= first + second.drop_last());
        assert((first + second).last() == second.last());
        assert(cluster_listing(first + second) =~= cluster_listing(first) + cluster_listing(second));
    }
}

/// Opening of the message that answers the creation of a cluster.
pub const CREATED_PREFIX: &'static str = "Cluster ";

/// End of the message that answers the creation of a cluster.
pub const CREATED_SUFFIX: &'static str = " créé.";

/// The message that answers a failed creation of a cluster.
pub const CREATE_FAILED: &'static str = "Erreur lors de la création du cluster.";

/// Opening of the message that answers the deletion of a cluster.
pub const DELETED_PREFIX: &'static str = "Cluster ";

/// End of the message that answers the deletion of a cluster.
pub const DELETED_SUFFIX: &'static str = " supprimé.";

/// The message that answers a failed deletion of a cluster.
pub const DELETE_FAILED: &'static str = "Erreur lors de la suppression du cluster.";

/// The answer to the creation of the cluster `clusterid`: 201 with a message
/// that names it where the data source created it, 500 with a fixed message
/// where it did not.
pub fn create_cluster_reply(clusterid: &str, created: bool) -> (reply: Reply)
    ensures
        !reply.html,
        created ==> reply.status == STATUS_CREATED && reply.body@ == CREATED_PREFIX@ + clusterid@ + CREATED_SUFFIX@,
        !created ==> reply.status == STATUS_SERVER_ERROR && reply.body@ == CREATE_FAILED@,
{
    if created {
        let mut body = String::from_str(CREATED_PREFIX);
        body.append(clusterid);
        body.append(CREATED_SUFFIX);
        Reply { status: STATUS_CREATED, html: false, body }
    } else {
        Reply { status: STATUS_SERVER_ERROR, html: false, body: String::from_str(CREATE_FAILED) }
    }
}

/// The answer to the deletion of the cluster `clusterid`: 200 with a message
/// that names it where the data source deleted it, 500 with a fixed message
/// where it did not.
pub fn delete_cluster_reply(clusterid: &str, deleted: bool) -> (reply: Reply)
    ensures
        !reply.html,
        deleted ==> reply.status == STATUS_OK && reply.body@ == DELETED_PREFIX@ + clusterid@ + DELETED_SUFFIX@,
        !deleted ==> reply.status == STATUS_SERVER_ERROR && reply.body@ == DELETE_FAILED@,
{
    if deleted {
        let mut body = String::from_str(DELETED_PREFIX);
        body.append(clusterid);
        body.append(DELETED_SUFFIX);
        Reply { status: STATUS_OK, html: false, body }
    } else {
        Reply { status: STATUS_SERVER_ERROR, html: false, body: String::from_str(DELETE_FAILED) }
    }
}

/// A cluster as the clusters page shows it: its name and its data source.
#[derive(Debug, Clone, PartialEq, Eq)]
pub struct ClusterEntry {
    pub cluster_name: String,
    pub datasource: String,
}

/// Opening of the clusters page, up to the body of the clusters table.
pub const MENU_HEAD: &'static str = "<!DOCTYPE html>
    <html lang=\"fr\">
    <head>
        <meta charset=\"UTF-8\">
        <meta name=\"viewport\" content=\"width=device-width, initial-scale=1.0\">
        <title>Gestion des Clusters</title>
        <style>
            /* Styles pour la page */
            body {
                font-family: Arial, sans-serif;
            }
            .button {
                padding: 10px 15px;
                margin: 5px;
                cursor: pointer;
            }
            .header {
                display: flex;
                justify-content: space-between;
                align-items: center;
                margin-bottom: 20px;
            }
        </style>
    </head>
    <body>

    <div class=\"header\">
        <h1>Liste des Clusters</h1>
        <a class=\"button\" href=\"/source/menu\">Gérer les Sources</a>
    </div>
    <table>
        <thead>
            <tr>
                <th>Nom du Cluster</th>
                <th>Source de Donnée</th>
                <th>Modifier</th>
                <th>Supprimer</th>
                <th>Déployer</th>
            </tr>
        </thead>
        <tbody>";
/// Start of the table row of a cluster, before its name.
pub const CLUSTER_ROW_OPEN: &'static str = "<tr>
                <td>";
/// Between the name of a cluster and its data source.
pub const CLUSTER_ROW_AFTER_NAME: &'static str = "</td>
                <td>";
/// Between the data source and the name passed to the edit button.
pub const CLUSTER_ROW_AFTER_SOURCE: &'static str = "</td>
                <td><button class=\"button\" onclick=\"editCluster('";
/// Between the edit button and the name passed to the delete button.
pub const CLUSTER_ROW_AFTER_EDIT: &'static str = "')\">Modifier</button></td>
                <td><button class=\"button\" onclick=\"deleteCluster('";
/// Between the delete button and the name in the deployment link.
pub const CLUSTER_ROW_AFTER_DELETE: &'static str = "')\">Supprimer</button></td>
                <td><a class=\"button\" href=\"/cluster/";
/// End of the table row of a cluster.
pub const CLUSTER_ROW_CLOSE: &'static str = "/deployer\">Déployer</a></td>
            </tr>";
/// Between the clusters table and the data source choices of the creation form.
pub const MENU_FORM: &'static str = "</tbody>
    </table>
    
    <h2>Créer un Cluster</h2>
    <form id=\"createClusterForm\" onsubmit=\"createCluster(); return false;\">
        <input type=\"text\" id=\"clusterName\" name=\"cluster_name\" placeholder=\"Nom du Cluster\" required>
        <select id=\"dataSource\" name=\"data_source\" required>";
/// Start of the choice of a data source, before its value.
pub const OPTION_OPEN: &'static str = "<option value=\"";
/// Between the value of a data source choice and its label.
pub const OPTION_MIDDLE: &'static str = "\">";
/// End of the choice of a data source.
pub const OPTION_CLOSE: &'static str = "</option>";
/// End of the clusters page, after the data source choices.
pub const MENU_TAIL: &'static str = "</select>
        <button class=\"button\">Créer</button>
    </form>

    <h2><a href=\"/gestion_source\">Gérer les Sources</a></h2> <!-- Lien vers la gestion des sources -->

    <script>
        async function deleteCluster(clusterid) {
            const dataSource = document.getElementById(\"dataSource\").value;
            console.log(`Suppression du cluster : ${clusterid} dans ${dataSource}`);
            const response = await fetch(`/cluster/${dataSource}/delete`, {
                method: 'DELETE'
            });
            if (response.ok) {
                window.location.reload();
            } else {
                alert('Échec de la suppression du cluster.');
            }
        }

        async function createCluster() {
            const clusterName = document.getElementById(\"clusterName\").value;
            const dataSource = document.getElementById(\"dataSource\").value;
            console.log(`Création du cluster : ${clusterName} dans ${dataSource}`);
            const response = await fetch(`/cluster/${dataSource}/create`, {
                method: 'POST',
                headers: {
                    'Content-Type': 'application/json'
                },
                body: JSON.stringify({ cluster_name: clusterName })
            });
            if (response.ok) {
                window.location.reload();
            } else {
                alert('Échec de la création du cluster.');
            }
        }

        async function editCluster(clusterName) {
            console.log(`Édition du cluster : ${clusterName}`);
            window.location.href = `/cluster/${clusterName}/edit`;
        }
    </script>
    
    </body>
    </html>";

/// The table row of one cluster: its name, its data source, and the buttons
/// to edit, delete and deploy it, each of which names it.
pub open spec fn cluster_row(entry: ClusterEntry) -> Seq<char> {
    CLUSTER_ROW_OPEN@ + entry.cluster_name@ + CLUSTER_ROW_AFTER_NAME@ + entry.datasource@
        + CLUSTER_ROW_AFTER_SOURCE@ + entry.cluster_name@ + CLUSTER_ROW_AFTER_EDIT@
        + entry.cluster_name@ + CLUSTER_ROW_AFTER_DELETE@ + entry.cluster_name@ + CLUSTER_ROW_CLOSE@
}

/// The rows of the clusters table, one per cluster, in order.
pub open spec fn cluster_rows(entries: Seq<ClusterEntry>) -> Seq<char>
    decreases entries.len(),
{
    if entries.len() == 0 {
        Seq::empty()
    } else {
        cluster_rows(entries.drop_last()) + cluster_row(entries.last())
    }
}

/// The choice of one data source in the creation form: its name as value and label.
pub open spec fn source_option(name: Seq<char>) -> Seq<char> {
    OPTION_OPEN@ + name + OPTION_MIDDLE@ + name + OPTION_CLOSE@
}

/// The choices of the data sources, one per source, in order.
pub open spec fn source_options(sources: Seq<String>) -> Seq<char>
    decreases sources.len(),
{
    if sources.len() == 0 {
        Seq::empty()
    } else {
        source_options(sources.drop_last()) + source_option(sources.last()@)
    }
}

/// The clusters page: the table of the clusters, then the form that creates
/// a cluster in one of the data sources.
pub open spec fn menu_page_body(entries: Seq<ClusterEntry>, sources: Seq<String>) -> Seq<char> {
    MENU_HEAD@ + cluster_rows(entries) + MENU_FORM@ + source_options(sources) + MENU_TAIL@
}

/// Appends the table row of one cluster.
fn append_cluster_row(page: &mut String, entry: &ClusterEntry)
    ensures
        final(page)@ == old(page)@ + cluster_row(*entry),
{
    page.append(CLUSTER_ROW_OPEN);
    page.append(entry.cluster_name.as_str());
    page.append(CLUSTER_ROW_AFTER_NAME);
    page.append(entry.datasource.as_str());
    page.append(CLUSTER_ROW_AFTER_SOURCE);
    page.append(entry.cluster_name.as_str());
    page.append(CLUSTER_ROW_AFTER_EDIT);
    page.append(entry.cluster_name.as_str());
    page.append(CLUSTER_ROW_AFTER_DELETE);
    page.append(entry.cluster_name.as_str());
    page.append(CLUSTER_ROW_CLOSE);
    assert(final(page)@ =~= old(page)@ + cluster_row(*entry));
}

/// Appends the choice of one data source.
fn append_source_option(page: &mut String, name: &String)
    ensures
        final(page)@ == old(page)@ + source_option(name@),
{
    page.append(OPTION_OPEN);
    page.append(name.as_str());
    page.append(OPTION_MIDDLE);
    page.append(name.as_str());
    page.append(OPTION_CLOSE);
    assert(final(page)@ =~= old(page)@ + source_option(name@));
}

/// The clusters page, an HTML page answered with 200: a row for each cluster,
/// in order, and a choice for each data source, in order.
pub fn menu_page(clusters: &Vec<ClusterEntry>, sources: &Vec<String>) -> (reply: Reply)
    ensures
        reply.status == STATUS_OK,
        reply.html,
        reply.body@ == menu_page_body(clusters@, sources@),
        reply.body@ == MENU_HEAD@ + cluster_rows(clusters@) + MENU_FORM@ + source_options(sources@) + MENU_TAIL@,
{
    let mut page = String::from_str(MENU_HEAD);
    let mut i: usize = 0;
    while i < clusters.len()
        invariant
            i <= clusters.len(),
            page@ == MENU_HEAD@ + cluster_rows(clusters@.take(i as int)),
        decreases clusters.len() - i,
    {
        assert(clusters@.take(i + 1).drop_last() =~= clusters@.take(i as int));
        append_cluster_row(&mut page, &clusters[i]);
        i = i + 1;
    }
    assert(clusters@.take(clusters.len() as int) =~= clusters@);
    page.append(MENU_FORM);
    let ghost before_options = page@;
    let mut k: usize = 0;
    while k < sources.len()
        invariant
            k <= sources.len(),
            page@ == before_options + source_options(sources@.take(k as int)),
        decreases sources.len() - k,
    {
        assert(sources@.take(k + 1).drop_last() =~= sources@.take(k as int));
        append_source_option(&mut page, &sources[k]);
        k = k + 1;
    }
    assert(sources@.take(sources.len() as int) =~= sources@);
    page.append(MENU_TAIL);
    assert(page@ =~= menu_page_body(clusters@, sources@));
    Reply { status: STATUS_OK, html: true, body: page }
}

/// There are no cluster rows without clusters.
pub proof fn lemma_cluster_rows_empty()
    ensures
        cluster_rows(Seq::<ClusterEntry>::empty()) == Seq::<char>::empty(),
{
}

/// The rows of the clusters are built one per cluster, in order: one more
/// cluster adds, after the rows already there, its own row, which shows its
/// name and data source and names it in the edit, delete and deploy buttons.
pub proof fn lemma_cluster_rows_push(entries: Seq<ClusterEntry>, entry: ClusterEntry)
    ensures
        cluster_rows(entries.push(entry)) == cluster_rows(entries) + (CLUSTER_ROW_OPEN@ + entry.cluster_name@
            + CLUSTER_ROW_AFTER_NAME@ + entry.datasource@ + CLUSTER_ROW_AFTER_SOURCE@ + entry.cluster_name@
            + CLUSTER_ROW_AFTER_EDIT@ + entry.cluster_name@ + CLUSTER_ROW_AFTER_DELETE@ + entry.cluster_name@
            + CLUSTER_ROW_CLOSE@),
{
    assert(entries.push(entry).drop_last() =~= entries);
}

/// There are no data source choices without data sources.
pub proof fn lemma_source_options_empty()
    ensures
        source_options(Seq::<String>::empty()) == Seq::<char>::empty(),
{
}

/// The choices of the data sources are built one per source, in order: one
/// more source adds, after the choices already there, a choice whose value
/// and label are its name.
pub proof fn lemma_source_options_push(sources: Seq<String>, source: String)
    ensures
        source_options(sources.push(source)) == source_options(sources) + (OPTION_OPEN@ + source@
            + OPTION_MIDDLE@ + source@ + OPTION_CLOSE@),
{
    assert(sources.push(source).drop_last() =~= sources);
}

/// Adding a cluster to the clusters page inserts its row right after the rows
/// of the others, and leaves the rest of the page as it was.
pub proof fn lemma_menu_page_push_cluster(entries: Seq<ClusterEntry>, entry: ClusterEntry, sources: Seq<String>)
    ensures
        ({
            let page = menu_page_body(entries, sources);
            let split = (MENU_HEAD@.len() + cluster_rows(entries).len()) as int;
            menu_page_body(entries.push(entry), sources) == page.take(split) + (CLUSTER_ROW_OPEN@
                + entry.cluster_name@ + CLUSTER_ROW_AFTER_NAME@ + entry.datasource@ + CLUSTER_ROW_AFTER_SOURCE@
                + entry.cluster_name@ + CLUSTER_ROW_AFTER_EDIT@ + entry.cluster_name@ + CLUSTER_ROW_AFTER_DELETE@
                + entry.cluster_name@ + CLUSTER_ROW_CLOSE@) + page.skip(split)
        }),
{
    lemma_cluster_rows_push(entries, entry);
    let page = menu_page_body(entries, sources);
    let split = (MENU_HEAD@.len() + cluster_rows(entries).len()) as int;
    let head = MENU_HEAD@ + cluster_rows(entries);
    let rest = MENU_FORM@ + source_options(sources) + MENU_TAIL@;
    assert(page =~= head + rest);
    assert(page.take(split) =~= head);
    assert(page.skip(split) =~= rest);
    assert(menu_page_body(entries.push(entry), sources) =~= page.take(split) + (CLUSTER_ROW_OPEN@
        + entry.cluster_name@ + CLUSTER_ROW_AFTER_NAME@ + entry.datasource@ + CLUSTER_ROW_AFTER_SOURCE@
        + entry.cluster_name@ + CLUSTER_ROW_AFTER_EDIT@ + entry.cluster_name@ + CLUSTER_ROW_AFTER_DELETE@
        + entry.cluster_name@ + CLUSTER_ROW_CLOSE@) + page.skip(split));
}

} // verus!
