use talos_clusters::edit::{
    edit_cluster_page, fill_placeholders, is_valid_yaml, render_error, render_html, save_yaml_reply, EditFailure,
    SaveOutcome, EDIT_PAGE_AFTER_MENU, EDIT_PAGE_AFTER_NAME, EDIT_PAGE_AFTER_YAML, EDIT_PAGE_CLOSE, EDIT_PAGE_OPEN,
    ERROR_PAGE_AFTER_MESSAGE, ERROR_PAGE_CLOSE, ERROR_PAGE_OPEN, YAML_SAVE_URL,
};

#[test]
fn blank_yaml_is_invalid() {
    assert!(!is_valid_yaml(""));
    assert!(!is_valid_yaml("   \n\t  \r\n"));
    assert!(!is_valid_yaml("\u{a0}\u{3000}\u{2028}"));
}

#[test]
fn yaml_with_content_is_valid() {
    assert!(is_valid_yaml("cluster_name: lab"));
    assert!(is_valid_yaml("  \n x \n"));
}

#[test]
fn validity_matches_trim() {
    for text in ["", " a", "\u{85}", "\u{200b}", "\t\u{2009}b", "é"] {
        assert_eq!(is_valid_yaml(text), !text.trim().is_empty(), "{:?}", text);
    }
}

#[test]
fn fill_matches_replace() {
    for template in ["", "{}", "{{}", "{}}", "a{b}c", "/cluster/{}/save", "{}{}", "{", "x{"] {
        assert_eq!(fill_placeholders(template, "lab"), template.replace("{}", "lab"), "{:?}", template);
    }
}

#[test]
fn fill_the_save_address() {
    assert_eq!(fill_placeholders(YAML_SAVE_URL, "homelab"), "/cluster/homelab/save");
}

#[test]
fn error_page_shows_message() {
    let reply = render_error("boom");
    assert_eq!(reply.status, 200);
    assert!(reply.html);
    assert_eq!(reply.body, format!("{}boom{}/{}", ERROR_PAGE_OPEN, ERROR_PAGE_AFTER_MESSAGE, ERROR_PAGE_CLOSE));
    assert!(reply.body.contains("<p>boom</p>"));
    assert!(reply.body.contains("<a href=\"/\">Retour au Menu Principal</a>"));
}

#[test]
fn edit_page_layout() {
    let page = render_html("lab", "cluster_name: lab\n");
    assert_eq!(
        page,
        format!(
            "{}lab{}/{}cluster_name: lab\n{}/cluster/lab/save{}",
            EDIT_PAGE_OPEN, EDIT_PAGE_AFTER_NAME, EDIT_PAGE_AFTER_MENU, EDIT_PAGE_AFTER_YAML, EDIT_PAGE_CLOSE
        )
    );
    assert!(page.contains("<h1>Configuration Cluster: lab</h1>"));
    assert!(page.contains("fetch(`/cluster/lab/save`, {"));
}

#[test]
fn edit_cluster_page_cases() {
    let ok = edit_cluster_page("lab", Ok("a: 1".to_string()));
    assert_eq!(ok.body, render_html("lab", "a: 1"));
    assert_eq!((ok.status, ok.html), (200, true));
    assert_eq!(
        edit_cluster_page("lab", Err(EditFailure::Unavailable)),
        render_error("Les données du cluster n'ont pas pu être récupérées.")
    );
    assert_eq!(
        edit_cluster_page("lab", Err(EditFailure::NotSerializable)),
        render_error("Erreur lors de la conversion en YAML.")
    );
}

#[test]
fn save_replies() {
    let r = save_yaml_reply(SaveOutcome::Invalid);
    assert_eq!((r.status, r.html, r.body.as_str()), (400, false, "Le contenu YAML n'est pas valide."));
    let r = save_yaml_reply(SaveOutcome::Unparsable);
    assert_eq!((r.status, r.body.as_str()), (400, "Erreur lors du parsing du YAML."));
    let r = save_yaml_reply(SaveOutcome::Saved);
    assert_eq!((r.status, r.body.as_str()), (200, "Données enregistrées avec succès."));
    let r = save_yaml_reply(SaveOutcome::NotSaved);
    assert_eq!((r.status, r.body.as_str()), (500, "Erreur lors de la création du cluster."));
}
