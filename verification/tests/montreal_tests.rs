use vector_ingest::montreal::{
    CategoryMetadata, Group, OpenDataItem, Organization, Resource, Tag,
};

fn sample_organization() -> Organization {
    Organization {
        id: "org-1".to_string(),
        name: "Ville".to_string(),
        title: "Ville de Montréal".to_string(),
        item_type: "organization".to_string(),
        description: None,
        image_url: String::new(),
        created: None,
        is_organization: true,
        approval_status: "approved".to_string(),
        state: "active".to_string(),
    }
}

fn sample_resource(description: Option<&str>) -> Resource {
    Resource {
        cache_last_updated: None,
        cache_url: None,
        created: None,
        datastore_active: false,
        datastore_contains_all_records_of_source_file: false,
        description: description.map(|d| d.to_string()),
        format: Some("CSV".to_string()),
        hash: String::new(),
        id: "res-1".to_string(),
        last_modified: None,
        metadata_modified: None,
        mimetype: None,
        mimetype_inner: None,
        name: "data".to_string(),
        package_id: "pkg".to_string(),
        position: 0,
        relidi_condon_boolee: None,
        relidi_condon_datheu: None,
        relidi_condon_nombre: None,
        relidi_condon_valinc: None,
        relidi_confic_epsg: None,
        relidi_confic_pascom: None,
        relidi_confic_separateur_virgule: None,
        relidi_confic_utf8: None,
        relidi_description_champs: None,
        relidi_ressource_complementaire: Vec::new(),
        resource_type: None,
        size: None,
        state: "active".to_string(),
        url: String::new(),
        url_type: None,
    }
}

fn sample_item() -> OpenDataItem {
    OpenDataItem {
        author: String::new(),
        author_email: String::new(),
        creator_user_id: String::new(),
        ext_spatial: String::new(),
        extras_flag_donnees_normalise: None,
        id: "abc-123".to_string(),
        isopen: true,
        language: "fr".to_string(),
        license_id: String::new(),
        license_title: String::new(),
        license_url: String::new(),
        maintainer: None,
        maintainer_email: None,
        metadata_created: None,
        metadata_modified: None,
        methodologie: "M".to_string(),
        name: "jeu-de-donnees".to_string(),
        notes: "N".to_string(),
        num_resources: 3,
        num_tags: 2,
        organization: sample_organization(),
        owner_org: String::new(),
        private: false,
        state: "active".to_string(),
        temporal: None,
        territoire: vec!["A".to_string(), "B".to_string()],
        title: "T".to_string(),
        item_type: "dataset".to_string(),
        update_frequency: String::new(),
        url: String::new(),
        version: None,
        groups: vec![Group {
            description: None,
            display_name: "Groupe".to_string(),
            id: "g-1".to_string(),
            image_display_url: String::new(),
            name: "G".to_string(),
            title: "Groupe".to_string(),
        }],
        resources: vec![
            sample_resource(Some("D1")),
            sample_resource(None),
            sample_resource(Some("D2")),
        ],
        tags: vec![
            Tag {
                display_name: "Tag 1".to_string(),
                id: "t-1".to_string(),
                name: "t1".to_string(),
                state: "active".to_string(),
            },
            Tag {
                display_name: "Tag 2".to_string(),
                id: "t-2".to_string(),
                name: "t2".to_string(),
                state: "active".to_string(),
            },
        ],
    }
}

#[test]
fn normalization_keeps_id_and_flattens_fields() {
    let c = CategoryMetadata::from(sample_item());
    assert_eq!(c.id, "abc-123");
    assert_eq!(c.titre, "T");
    assert_eq!(c.notes, "N");
    assert_eq!(c.organisation, "Ville");
    assert_eq!(c.territoire, vec!["A", "B"]);
    assert_eq!(c.groupes, vec!["G"]);
    assert_eq!(c.tags, vec!["t1", "t2"]);
    assert_eq!(c.methodologie, "M");
}

#[test]
fn normalization_keeps_only_present_resource_descriptions() {
    let c = CategoryMetadata::from(sample_item());
    assert_eq!(c.description_donnees, vec!["D1", "D2"]);
}

#[test]
fn paragraph_states_each_field_as_a_sentence() {
    let c = CategoryMetadata::from(sample_item());
    assert_eq!(
        c.paragraph(),
        "T. N. D1, D2. M.Organisation: Ville. Territoire comprend: A, B. \
         Groupes comprend: G. Tags: t1, t2. "
    );
}

#[test]
fn document_text_is_the_paragraph_as_a_json_string() {
    let c = CategoryMetadata::from(sample_item());
    let expected = format!("\"{}\"", c.paragraph());
    assert_eq!(c.document_text(), expected);
    assert_eq!(c.document_text(), serde_json::to_string(&c.paragraph()).unwrap());
}
