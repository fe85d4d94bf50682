use talos_clusters::datasource::{
    cluster_source_deleted_reply, cluster_source_updated_reply, cluster_updated_reply, sources_page,
    SOURCES_HEAD, SOURCES_TAIL,
};

#[test]
fn fixed_replies() {
    let updated = cluster_updated_reply();
    assert_eq!((updated.status, updated.html, updated.body.as_str()), (200, false, "Cluster updated successfully!"));
    let deleted = cluster_source_deleted_reply();
    assert_eq!(
        (deleted.status, deleted.html, deleted.body.as_str()),
        (200, false, "Cluster source deleted successfully!")
    );
    let source_updated = cluster_source_updated_reply();
    assert_eq!(
        (source_updated.status, source_updated.html, source_updated.body.as_str()),
        (200, false, "Cluster source updated successfully!")
    );
}

#[test]
fn sources_page_has_a_row_per_source() {
    let reply = sources_page(&vec!["pg-main".to_string()]);
    assert_eq!(reply.status, 200);
    assert!(reply.html);
    let row = "<tr>
                <td>pg-main</td>
                <td><button class=\"button\" onclick=\"editSource('pg-main')\">Modifier</button></td>
                <td><button class=\"button\" onclick=\"deleteSource('pg-main')\">Supprimer</button></td>
            </tr>";
    assert_eq!(reply.body, format!("{}{}{}", SOURCES_HEAD, row, SOURCES_TAIL));
    assert!(reply.body.contains("<title>Gestion des Sources</title>"));
}

#[test]
fn sources_page_keeps_source_order() {
    let reply = sources_page(&vec!["b".to_string(), "a".to_string()]);
    let first = reply.body.find("<td>b</td>").unwrap();
    let second = reply.body.find("<td>a</td>").unwrap();
    assert!(first < second);
}

#[test]
fn empty_sources_page() {
    assert_eq!(sources_page(&vec![]).body, format!("{}{}", SOURCES_HEAD, SOURCES_TAIL));
}
