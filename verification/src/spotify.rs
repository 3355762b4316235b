//! Artist-overview records and their document form.
//!
//! One artist's overview carries a biography, a discography (albums and
//! singles) and upcoming concerts. It is normalized into one document per
//! entity: the biography as plain text, and each concert, album and single
//! serialized as JSON, every document carrying the artist's name as its
//! metadata and an id prefixed with the entity's kind.

use crate::document::Document;
use crate::json::{dec_digits, json_quote, json_string, push_json_string, push_u32_decimal};
use crate::text::{chars_to_string, push_chars};
use vstd::prelude::*;
use vstd::string::StringExecFns;

verus! {

/// One artist's overview, as the source answers an artist request.
#[derive(Clone, Debug)]
pub struct ArtistOverviewResponse {
    pub id: String,
    pub name: String,
    pub biography: String,
    pub discography: Discography,
    pub goods: Goods,
}

/// The artist's released albums and singles.
#[derive(Clone, Debug)]
pub struct Discography {
    pub albums: Album,
    pub singles: Single,
}

/// The artist's singles.
#[derive(Clone, Debug)]
pub struct Single {
    pub items: Vec<DiscographyItem>,
}

/// The artist's albums.
#[derive(Clone, Debug)]
pub struct Album {
    pub items: Vec<DiscographyItem>,
}

/// One released album or single.
#[derive(Clone, Debug)]
pub struct DiscographyItem {
    pub id: String,
    pub item_type: String,
    pub name: String,
    pub label: String,
    pub track_count: u32,
}

/// The artist's goods: the concerts on offer.
#[derive(Clone, Debug)]
pub struct Goods {
    pub concerts: Concerts,
}

/// The artist's upcoming concerts.
#[derive(Clone, Debug)]
pub struct Concerts {
    pub items: Vec<Concert>,
}

/// One upcoming concert.
#[derive(Clone, Debug)]
pub struct Concert {
    pub id: String,
    pub item_type: String,
    pub date: String,
    pub venue: String,
    pub location: String,
}

/// A discography entry serialized as JSON: its fields in declaration
/// order, the kind under the key `type` and the track count under
/// `trackCount`.
pub open spec fn discography_item_json(d: DiscographyItem) -> Seq<char> {
    "{\"id\":"@ + json_string(d.id@) + ",\"type\":"@ + json_string(d.item_type@) + ",\"name\":"@
        + json_string(d.name@) + ",\"label\":"@ + json_string(d.label@) + ",\"trackCount\":"@
        + dec_digits(d.track_count as int) + "}"@
}

/// A concert serialized as JSON: its fields in declaration order, the kind
/// under the key `type`.
pub open spec fn concert_json(c: Concert) -> Seq<char> {
    "{\"id\":"@ + json_string(c.id@) + ",\"type\":"@ + json_string(c.item_type@) + ",\"date\":"@
        + json_string(c.date@) + ",\"venue\":"@ + json_string(c.venue@) + ",\"location\":"@
        + json_string(c.location@) + "}"@
}

impl DiscographyItem {
    /// The entry serialized as JSON text.
    pub fn to_json(&self) -> (r: String)
        ensures
            r@ == discography_item_json(*self),
    {
        let mut out: Vec<char> = Vec::new();
        push_chars(&mut out, "{\"id\":");
        push_json_string(&mut out, self.id.as_str());
        push_chars(&mut out, ",\"type\":");
        push_json_string(&mut out, self.item_type.as_str());
        push_chars(&mut out, ",\"name\":");
        push_json_string(&mut out, self.name.as_str());
        push_chars(&mut out, ",\"label\":");
        push_json_string(&mut out, self.label.as_str());
        push_chars(&mut out, ",\"trackCount\":");
        push_u32_decimal(&mut out, self.track_count);
        push_chars(&mut out, "}");
        proof {
            assert(out@ =~= discography_item_json(*self));
        }
        chars_to_string(&out)
    }
}

impl Concert {
    /// The concert serialized as JSON text.
    pub fn to_json(&self) -> (r: String)
        ensures
            r@ == concert_json(*self),
    {
        let mut out: Vec<char> = Vec::new();
        push_chars(&mut out, "{\"id\":");
        push_json_string(&mut out, self.id.as_str());
        push_chars(&mut out, ",\"type\":");
        push_json_string(&mut out, self.item_type.as_str());
        push_chars(&mut out, ",\"date\":");
        push_json_string(&mut out, self.date.as_str());
        push_chars(&mut out, ",\"venue\":");
        push_json_string(&mut out, self.venue.as_str());
        push_chars(&mut out, ",\"location\":");
        push_json_string(&mut out, self.location.as_str());
        push_chars(&mut out, "}");
        proof {
            assert(out@ =~= concert_json(*self));
        }
        chars_to_string(&out)
    }
}

/// Append one document per discography entry: the id is the entry's id
/// under `prefix`, the metadata is the artist's name as a JSON string, and
/// the one fragment is the entry serialized as JSON.
fn push_discography_documents(
    docs: &mut Vec<Document>,
    items: &Vec<DiscographyItem>,
    prefix: &str,
    name: &str,
)
    ensures
        final(docs)@.len() == old(docs)@.len() + items@.len(),
        final(docs)@.take(old(docs)@.len() as int) == old(docs)@,
        forall|i: int|
            0 <= i < items@.len() ==> {
                let d = #[trigger] final(docs)@[old(docs)@.len() + i];
                &&& d.id@ == prefix@ + items@[i].id@
                &&& d.metadata@ == json_string(name@)
                &&& d.fragments@.len() == 1
                &&& d.fragments@[0]@ == discography_item_json(items@[i])
            },
{
    let ghost base = docs@;
    let n = items.len();
    let mut i: usize = 0;
    while i < n
        invariant
            n == items@.len(),
            i <= n,
            docs@.len() == base.len() + i as int,
            docs@.take(base.len() as int) == base,
            forall|j: int|
                0 <= j < i ==> {
                    let d = #[trigger] docs@[base.len() + j];
                    &&& d.id@ == prefix@ + items@[j].id@
                    &&& d.metadata@ == json_string(name@)
                    &&& d.fragments@.len() == 1
                    &&& d.fragments@[0]@ == discography_item_json(items@[j])
                },
        decreases n - i,
    {
        let item = &items[i];
        let id = String::from_str(prefix).concat(item.id.as_str());
        let mut fragments: Vec<String> = Vec::new();
        fragments.push(item.to_json());
        docs.push(Document { id, metadata: json_quote(name), fragments });
        proof {
            assert(docs@.take(base.len() as int) =~= base);
        }
        i = i + 1;
    }
}

/// Normalize one artist overview into documents, in a fixed order: the
/// biography first (as plain text), then one JSON document per concert,
/// per album, and per single. Every document carries the artist's name as
/// its metadata, and an id made of the entity's kind and its own id.
pub fn build_artist_documents(o: &ArtistOverviewResponse) -> (docs: Vec<Document>)
    ensures
        ({
            let concerts = o.goods.concerts.items@;
            let albums = o.discography.albums.items@;
            let singles = o.discography.singles.items@;
            &&& docs@.len() == 1 + concerts.len() + albums.len() + singles.len()
            &&& docs@[0].id@ == "biography-"@ + o.id@
            &&& docs@[0].metadata@ == json_string(o.name@)
            &&& docs@[0].fragments@.len() == 1
            &&& docs@[0].fragments@[0] == o.biography
            &&& (forall|i: int|
                0 <= i < concerts.len() ==> {
                    let d = #[trigger] docs@[1 + i];
                    &&& d.id@ == "concert-"@ + concerts[i].id@
                    &&& d.metadata@ == json_string(o.name@)
                    &&& d.fragments@.len() == 1
                    &&& d.fragments@[0]@ == concert_json(concerts[i])
                })
            &&& (forall|i: int|
                0 <= i < albums.len() ==> {
                    let d = #[trigger] docs@[1 + concerts.len() + i];
                    &&& d.id@ == "album-"@ + albums[i].id@
                    &&& d.metadata@ == json_string(o.name@)
                    &&& d.fragments@.len() == 1
                    &&& d.fragments@[0]@ == discography_item_json(albums[i])
                })
            &&& (forall|i: int|
                0 <= i < singles.len() ==> {
                    let d = #[trigger] docs@[1 + concerts.len() + albums.len() + i];
                    &&& d.id@ == "single-"@ + singles[i].id@
                    &&& d.metadata@ == json_string(o.name@)
                    &&& d.fragments@.len() == 1
                    &&& d.fragments@[0]@ == discography_item_json(singles[i])
                })
        }),
{
    let mut docs: Vec<Document> = Vec::new();
    let id = String::from_str("biography-").concat(o.id.as_str());
    let mut fragments: Vec<String> = Vec::new();
    fragments.push(o.biography.clone());
    docs.push(Document { id, metadata: json_quote(o.name.as_str()), fragments });
    let n = o.goods.concerts.items.len();
    let mut i: usize = 0;
    while i < n
        invariant
            n == o.goods.concerts.items@.len(),
            i <= n,
            docs@.len() == 1 + i as int,
            docs@[0].id@ == "biography-"@ + o.id@,
            docs@[0].metadata@ == json_string(o.name@),
            docs@[0].fragments@.len() == 1,
            docs@[0].fragments@[0] == o.biography,
            forall|j: int|
                0 <= j < i ==> {
                    let d = #[trigger] docs@[1 + j];
                    &&& d.id@ == "concert-"@ + o.goods.concerts.items@[j].id@
                    &&& d.metadata@ == json_string(o.name@)
                    &&& d.fragments@.len() == 1
                    &&& d.fragments@[0]@ == concert_json(o.goods.concerts.items@[j])
                },
        decreases n - i,
    {
        let concert = &o.goods.concerts.items[i];
        let id = String::from_str("concert-").concat(concert.id.as_str());
        let mut fragments: Vec<String> = Vec::new();
        fragments.push(concert.to_json());
        docs.push(Document { id, metadata: json_quote(o.name.as_str()), fragments });
        i = i + 1;
    }
    let ghost before_albums = docs@;
    push_discography_documents(
        &mut docs,
        &o.discography.albums.items,
        "album-",
        o.name.as_str(),
    );
    let ghost before_singles = docs@;
    push_discography_documents(
        &mut docs,
        &o.discography.singles.items,
        "single-",
        o.name.as_str(),
    );
    proof {
        let concerts = o.goods.concerts.items@;
        let albums = o.discography.albums.items@;
        assert(before_singles.take(before_albums.len() as int) == before_albums);
        assert(docs@.take(before_singles.len() as int) == before_singles);
        assert forall|j: int| 0 <= j < before_singles.len() implies docs@[j] == before_singles[j]
            by {
            assert(docs@.take(before_singles.len() as int)[j] == docs@[j]);
        }
        assert forall|j: int|
            0 <= j < before_albums.len() implies before_singles[j] == before_albums[j] by {
            assert(before_singles.take(before_albums.len() as int)[j] == before_singles[j]);
        }
        assert forall|i: int|
            0 <= i < concerts.len() implies {
                let d = #[trigger] docs@[1 + i];
                &&& d.id@ == "concert-"@ + concerts[i].id@
                &&& d.metadata@ == json_string(o.name@)
                &&& d.fragments@.len() == 1
                &&& d.fragments@[0]@ == concert_json(concerts[i])
            } by {
            assert(docs@[1 + i] == before_singles[1 + i]);
            assert(before_singles[1 + i] == before_albums[1 + i]);
        }
        assert forall|i: int|
            0 <= i < albums.len() implies {
                let d = #[trigger] docs@[1 + concerts.len() + i];
                &&& d.id@ == "album-"@ + albums[i].id@
                &&& d.metadata@ == json_string(o.name@)
                &&& d.fragments@.len() == 1
                &&& d.fragments@[0]@ == discography_item_json(albums[i])
            } by {
            assert(before_singles[before_albums.len() + i].id@ == "album-"@ + albums[i].id@);
            assert(docs@[1 + concerts.len() + i] == before_singles[1 + concerts.len() + i]);
        }
    }
    docs
}

} // verus!
