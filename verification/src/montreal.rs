//! Records of the Montreal open-data catalogue, and their document form.
//!
//! A catalogue entry ([`OpenDataItem`]) is normalized into a
//! [`CategoryMetadata`]: the stable id, the descriptive fields flattened
//! into one record, and the names of its groups, tags and resource
//! descriptions. Its document form is one JSON string literal holding a
//! paragraph that states each descriptive field as a sentence; that text is
//! what gets token-counted, chunked and embedded.

use crate::json::{json_quote, json_string};
use crate::text::{chars_to_string, join_with, push_chars, push_joined, string_views};
use crate::timestamp::Timestamp;
use vstd::prelude::*;

verus! {

/// A group a catalogue entry belongs to.
#[derive(Clone, Debug)]
pub struct Group {
    pub description: Option<String>,
    pub display_name: String,
    pub id: String,
    pub image_display_url: String,
    pub name: String,
    pub title: String,
}

/// A tag attached to a catalogue entry.
#[derive(Clone, Debug)]
pub struct Tag {
    pub display_name: String,
    pub id: String,
    pub name: String,
    pub state: String,
}

/// The organization that publishes a catalogue entry.
#[derive(Clone, Debug)]
pub struct Organization {
    pub id: String,
    pub name: String,
    pub title: String,
    pub item_type: String,
    pub description: Option<String>,
    pub image_url: String,
    pub created: Option<Timestamp>,
    pub is_organization: bool,
    pub approval_status: String,
    pub state: String,
}

/// One downloadable resource of a catalogue entry.
#[derive(Clone, Debug)]
pub struct Resource {
    pub cache_last_updated: Option<String>,
    pub cache_url: Option<String>,
    pub created: Option<Timestamp>,
    pub datastore_active: bool,
    pub datastore_contains_all_records_of_source_file: bool,
    pub description: Option<String>,
    pub format: Option<String>,
    pub hash: String,
    pub id: String,
    pub last_modified: Option<Timestamp>,
    pub metadata_modified: Option<Timestamp>,
    pub mimetype: Option<String>,
    pub mimetype_inner: Option<String>,
    pub name: String,
    pub package_id: String,
    pub position: u32,
    pub relidi_condon_boolee: Option<String>,
    pub relidi_condon_datheu: Option<String>,
    pub relidi_condon_nombre: Option<String>,
    pub relidi_condon_valinc: Option<String>,
    pub relidi_confic_epsg: Option<String>,
    pub relidi_confic_pascom: Option<String>,
    pub relidi_confic_separateur_virgule: Option<String>,
    pub relidi_confic_utf8: Option<String>,
    pub relidi_description_champs: Option<String>,
    pub relidi_ressource_complementaire: Vec<String>,
    pub resource_type: Option<String>,
    pub size: Option<u64>,
    pub state: String,
    pub url: String,
    pub url_type: Option<String>,
}

/// One entry of the open-data catalogue, as the source answers a page
/// request.
#[derive(Clone, Debug)]
pub struct OpenDataItem {
    pub author: String,
    pub author_email: String,
    pub creator_user_id: String,
    pub ext_spatial: String,
    pub extras_flag_donnees_normalise: Option<String>,
    pub id: String,
    pub isopen: bool,
    pub language: String,
    pub license_id: String,
    pub license_title: String,
    pub license_url: String,
    pub maintainer: Option<String>,
    pub maintainer_email: Option<String>,
    pub metadata_created: Option<Timestamp>,
    pub metadata_modified: Option<Timestamp>,
    pub methodologie: String,
    pub name: String,
    pub notes: String,
    pub num_resources: u32,
    pub num_tags: u32,
    pub organization: Organization,
    pub owner_org: String,
    pub private: bool,
    pub state: String,
    pub temporal: Option<String>,
    pub territoire: Vec<String>,
    pub title: String,
    pub item_type: String,
    pub update_frequency: String,
    pub url: String,
    pub version: Option<String>,
    pub groups: Vec<Group>,
    pub resources: Vec<Resource>,
    pub tags: Vec<Tag>,
}

/// One page of catalogue entries.
#[derive(Debug)]
pub struct OpenDataResult {
    pub count: i32,
    pub results: Vec<OpenDataItem>,
}

/// The source's answer to one page request.
#[derive(Debug)]
pub struct OpenDataResponse {
    pub result: OpenDataResult,
}

/// A catalogue entry normalized for retrieval: the stable id and the
/// descriptive fields, flattened.
#[derive(Clone, Debug)]
pub struct CategoryMetadata {
    pub id: String,
    pub titre: String,
    pub notes: String,
    pub organisation: String,
    pub territoire: Vec<String>,
    pub groupes: Vec<String>,
    pub tags: Vec<String>,
    pub description_donnees: Vec<String>,
    pub methodologie: String,
}

/// The names of the given tags, in order.
pub open spec fn tag_names(tags: Seq<Tag>) -> Seq<Seq<char>> {
    tags.map_values(|t: Tag| t.name@)
}

/// The names of the given groups, in order.
pub open spec fn group_names(groups: Seq<Group>) -> Seq<Seq<char>> {
    groups.map_values(|g: Group| g.name@)
}

/// The descriptions of the given resources that have one, in order.
pub open spec fn resource_descriptions(resources: Seq<Resource>) -> Seq<Seq<char>>
    decreases resources.len(),
{
    if resources.len() == 0 {
        Seq::empty()
    } else {
        resource_descriptions(resources.drop_last()) + if resources.last().description is Some {
            seq![resources.last().description->0@]
        } else {
            Seq::empty()
        }
    }
}

/// The descriptive paragraph of a normalized entry: each field written as a
/// sentence, lists joined with commas.
pub open spec fn spec_paragraph(c: CategoryMetadata) -> Seq<char> {
    c.titre@ + ". "@ + c.notes@ + ". "@ + join_with(string_views(c.description_donnees@), ", "@)
        + ". "@ + c.methodologie@ + "."@ + "Organisation: "@ + c.organisation@ + ". "@
        + "Territoire comprend: "@ + join_with(string_views(c.territoire@), ", "@) + ". "@
        + "Groupes comprend: "@ + join_with(string_views(c.groupes@), ", "@) + ". "@ + "Tags: "@
        + join_with(string_views(c.tags@), ", "@) + ". "@
}

impl CategoryMetadata {
    /// Normalize one catalogue entry: keep the stable id, flatten the
    /// descriptive fields, and collect the names of the entry's groups and
    /// tags and the descriptions of its resources.
    pub fn from(value: OpenDataItem) -> (c: CategoryMetadata)
        ensures
            c.id == value.id,
            c.titre == value.title,
            c.notes == value.notes,
            c.organisation == value.organization.name,
            c.territoire == value.territoire,
            c.methodologie == value.methodologie,
            string_views(c.tags@) == tag_names(value.tags@),
            string_views(c.groupes@) == group_names(value.groups@),
            string_views(c.description_donnees@) == resource_descriptions(value.resources@),
    {
        let mut tags: Vec<String> = Vec::new();
        let mut i: usize = 0;
        while i < value.tags.len()
            invariant
                i <= value.tags@.len(),
                string_views(tags@) =~= tag_names(value.tags@.take(i as int)),
            decreases value.tags@.len() - i,
        {
            tags.push(value.tags[i].name.clone());
            proof {
                assert(tag_names(value.tags@.take(i + 1)) =~= tag_names(
                    value.tags@.take(i as int),
                ).push(value.tags@[i as int].name@));
            }
            i = i + 1;
        }
        let mut groupes: Vec<String> = Vec::new();
        let mut i: usize = 0;
        while i < value.groups.len()
            invariant
                i <= value.groups@.len(),
                string_views(groupes@) =~= group_names(value.groups@.take(i as int)),
            decreases value.groups@.len() - i,
        {
            groupes.push(value.groups[i].name.clone());
            proof {
                assert(group_names(value.groups@.take(i + 1)) =~= group_names(
                    value.groups@.take(i as int),
                ).push(value.groups@[i as int].name@));
            }
            i = i + 1;
        }
        let mut description_donnees: Vec<String> = Vec::new();
        let mut i: usize = 0;
        while i < value.resources.len()
            invariant
                i <= value.resources@.len(),
                string_views(description_donnees@) =~= resource_descriptions(
                    value.resources@.take(i as int),
                ),
            decreases value.resources@.len() - i,
        {
            match &value.resources[i].description {
                Some(d) => {
                    description_donnees.push(d.clone());
                },
                None => {},
            }
            proof {
                assert(value.resources@.take(i + 1).drop_last() =~= value.resources@.take(
                    i as int,
                ));
                assert(value.resources@.take(i + 1).last() == value.resources@[i as int]);
            }
            i = i + 1;
        }
        proof {
            assert(value.tags@.take(value.tags@.len() as int) =~= value.tags@);
            assert(value.groups@.take(value.groups@.len() as int) =~= value.groups@);
            assert(value.resources@.take(value.resources@.len() as int) =~= value.resources@);
        }
        CategoryMetadata {
            id: value.id,
            titre: value.title,
            tags,
            groupes,
            organisation: value.organization.name,
            notes: value.notes,
            territoire: value.territoire,
            description_donnees,
            methodologie: value.methodologie,
        }
    }

    /// The descriptive paragraph: each field as a sentence, lists joined
    /// with commas, in a fixed order.
    pub fn paragraph(&self) -> (r: String)
        ensures
            r@ == spec_paragraph(*self),
    {
        let mut out: Vec<char> = Vec::new();
        push_chars(&mut out, self.titre.as_str());
        push_chars(&mut out, ". ");
        push_chars(&mut out, self.notes.as_str());
        push_chars(&mut out, ". ");
        push_joined(&mut out, &self.description_donnees, ", ");
        push_chars(&mut out, ". ");
        push_chars(&mut out, self.methodologie.as_str());
        push_chars(&mut out, ".");
        push_chars(&mut out, "Organisation: ");
        push_chars(&mut out, self.organisation.as_str());
        push_chars(&mut out, ". ");
        push_chars(&mut out, "Territoire comprend: ");
        push_joined(&mut out, &self.territoire, ", ");
        push_chars(&mut out, ". ");
        push_chars(&mut out, "Groupes comprend: ");
        push_joined(&mut out, &self.groupes, ", ");
        push_chars(&mut out, ". ");
        push_chars(&mut out, "Tags: ");
        push_joined(&mut out, &self.tags, ", ");
        push_chars(&mut out, ". ");
        proof {
            assert(out@ =~= spec_paragraph(*self));
        }
        chars_to_string(&out)
    }

    /// The entry serialized as JSON: one JSON string literal holding the
    /// descriptive paragraph. This text is the document that is
    /// token-counted, chunked and embedded.
    pub fn document_text(&self) -> (r: String)
        ensures
            r@ == json_string(spec_paragraph(*self)),
    {
        let paragraph = self.paragraph();
        json_quote(paragraph.as_str())
    }
}

} // verus!
