use talos_clusters::clusters::{
    collect_cluster_listing, create_cluster_reply, delete_cluster_reply, menu_page, record_source_outcome,
    source_error_message, ClusterEntry, CLUSTER_ROW_OPEN, MENU_FORM, MENU_HEAD, MENU_TAIL,
};
use talos_clusters::reply::Reply;

fn s(text: &str) -> String {
    text.to_string()
}

#[test]
fn listing_keeps_clusters_in_source_order() {
    let results = vec![
        (s("prod"), Ok(vec![s("alpha"), s("beta")])),
        (s("lab"), Ok(vec![s("gamma")])),
    ];
    assert_eq!(collect_cluster_listing(&results), vec![s("alpha"), s("beta"), s("gamma")]);
}

#[test]
fn listing_reports_an_unreadable_source_once() {
    let results = vec![
        (s("prod"), Ok(vec![s("alpha")])),
        (s("broken"), Err(s("\"connection refused\""))),
        (s("lab"), Ok(vec![])),
        (s("lab2"), Ok(vec![s("delta")])),
    ];
    assert_eq!(
        collect_cluster_listing(&results),
        vec![
            s("alpha"),
            s("Erreur avec la source broken: \"connection refused\""),
            s("delta"),
        ]
    );
}

#[test]
fn listing_of_no_source_is_empty() {
    assert!(collect_cluster_listing(&vec![]).is_empty());
}

#[test]
fn listing_of_concatenated_sources_is_concatenated() {
    let first = vec![(s("a"), Ok(vec![s("c1")])), (s("b"), Err(s("e")))];
    let second = vec![(s("c"), Ok(vec![s("c2"), s("c3")]))];
    let mut both = first.clone();
    both.extend(second.clone());
    let mut expected = collect_cluster_listing(&first);
    expected.extend(collect_cluster_listing(&second));
    assert_eq!(collect_cluster_listing(&both), expected);
}

#[test]
fn record_source_outcome_appends() {
    let mut listing = vec![s("x")];
    record_source_outcome(&mut listing, &s("src"), &Ok(vec![s("y"), s("z")]));
    record_source_outcome(&mut listing, &s("bad"), &Err(s("Timeout")));
    assert_eq!(listing, vec![s("x"), s("y"), s("z"), s("Erreur avec la source bad: Timeout")]);
}

#[test]
fn error_message_names_source_and_error() {
    assert_eq!(source_error_message("db1", "NotFound"), "Erreur avec la source db1: NotFound");
}

#[test]
fn create_reply_on_success_and_failure() {
    assert_eq!(
        create_cluster_reply("c42", true),
        Reply { status: 201, html: false, body: s("Cluster c42 créé.") }
    );
    assert_eq!(
        create_cluster_reply("c42", false),
        Reply { status: 500, html: false, body: s("Erreur lors de la création du cluster.") }
    );
}

#[test]
fn delete_reply_on_success_and_failure() {
    assert_eq!(
        delete_cluster_reply("c7", true),
        Reply { status: 200, html: false, body: s("Cluster c7 supprimé.") }
    );
    assert_eq!(
        delete_cluster_reply("c7", false),
        Reply { status: 500, html: false, body: s("Erreur lors de la suppression du cluster.") }
    );
}

#[test]
fn menu_page_lists_clusters_and_sources() {
    let clusters = vec![ClusterEntry { cluster_name: s("alpha"), datasource: s("prod") }];
    let sources = vec![s("prod"), s("lab")];
    let reply = menu_page(&clusters, &sources);
    assert_eq!(reply.status, 200);
    assert!(reply.html);
    let row = "<tr>
                <td>alpha</td>
                <td>prod</td>
                <td><button class=\"button\" onclick=\"editCluster('alpha')\">Modifier</button></td>
                <td><button class=\"button\" onclick=\"deleteCluster('alpha')\">Supprimer</button></td>
                <td><a class=\"button\" href=\"/cluster/alpha/deployer\">Déployer</a></td>
            </tr>";
    let options = "<option value=\"prod\">prod</option><option value=\"lab\">lab</option>";
    let expected = format!("{}{}{}{}{}", MENU_HEAD, row, MENU_FORM, options, MENU_TAIL);
    assert_eq!(reply.body, expected);
    assert!(reply.body.starts_with("<!DOCTYPE html>"));
    assert!(reply.body.ends_with("</html>"));
}

#[test]
fn menu_page_without_clusters_has_no_row() {
    let reply = menu_page(&vec![], &vec![]);
    assert!(!reply.body.contains(CLUSTER_ROW_OPEN));
    assert_eq!(reply.body, format!("{}{}{}", MENU_HEAD, MENU_FORM, MENU_TAIL));
}
