//! Saved-album records of a listening library, and their document form.
//!
//! A page of the library lists saved albums, each with the date it was
//! added and its artists and tracks. Albums and tracks are normalized into
//! one JSON document each; artist records, fetched separately in batches,
//! into one JSON document per artist paired with the date of the album that
//! named it.

use crate::document::Document;
use crate::json::{
    bool_json, dec_digits, json_string, json_string_array, push_bool, push_json_string,
    push_json_string_array, push_u32_decimal,
};
use crate::text::{chars_to_string, join_with, lemma_join_with_step, push_chars, push_joined,
    string_views};
use crate::timestamp::{timestamp_chars, Timestamp};
use vstd::arithmetic::div_mod::lemma_fundamental_div_mod;
use vstd::prelude::*;

verus! {

/// One page of saved albums.
#[derive(Clone, Debug)]
pub struct AlbumResponse {
    pub items: Vec<AlbumItem>,
}

/// One saved album: the date it was added to the library, and the album.
#[derive(Clone, Debug)]
pub struct AlbumItem {
    pub added_to_my_library: Timestamp,
    pub album: Album,
}

/// One album of the library.
#[derive(Clone, Debug)]
pub struct Album {
    pub album_type: String,
    pub total_tracks: u32,
    pub id: String,
    pub name: String,
    pub release_date: String,
    pub release_date_precision: String,
    pub artists: Vec<Artist>,
    pub tracks: Tracks,
    pub genres: Vec<String>,
    pub label: String,
    pub popularity: u32,
}

/// One artist named on an album.
#[derive(Clone, Debug)]
pub struct Artist {
    pub id: String,
    pub name: String,
    pub item_type: String,
}

/// The track listing of an album.
#[derive(Clone, Debug)]
pub struct Tracks {
    pub total: u32,
    pub items: Vec<AlbumTrack>,
}

/// One track of an album.
#[derive(Clone, Debug)]
pub struct AlbumTrack {
    pub id: String,
    pub name: String,
    pub duration_ms: u32,
    pub explicit: bool,
    pub track_number: u32,
}

/// One batch answer of the artists endpoint.
#[derive(Clone, Debug)]
pub struct ArtistResponse {
    pub artists: Vec<ArtistItem>,
}

/// One artist record.
#[derive(Clone, Debug)]
pub struct ArtistItem {
    pub id: String,
    pub name: String,
    pub genres: Vec<String>,
    pub popularity: u32,
    pub item_type: String,
}

/// A timestamp serialized as JSON: its text form as a string literal.
pub open spec fn timestamp_json(t: Timestamp) -> Seq<char> {
    json_string(timestamp_chars(t))
}

/// A track serialized as JSON: its fields in declaration order.
pub open spec fn album_track_json(t: AlbumTrack) -> Seq<char> {
    "{\"id\":"@ + json_string(t.id@) + ",\"name\":"@ + json_string(t.name@)
        + ",\"duration_ms\":"@ + dec_digits(t.duration_ms as int) + ",\"explicit\":"@ + bool_json(
        t.explicit,
    ) + ",\"track_number\":"@ + dec_digits(t.track_number as int) + "}"@
}

/// The document value built for one track: the date the album was added,
/// the track itself re-serialized as a string, the album's release date and
/// name, and its artists' names — keys in sorted order, as a JSON value
/// map holds them.
pub open spec fn track_document_json(item: AlbumItem, t: AlbumTrack) -> Seq<char> {
    "{\"added_to_my_library\":"@ + timestamp_json(item.added_to_my_library) + ",\"album\":"@
        + json_string(item.album.name@) + ",\"artists\":"@ + json_string_array(
        artist_names(item.album.artists@),
    ) + ",\"release_date\":"@ + json_string(item.album.release_date@) + ",\"track\":"@
        + json_string(album_track_json(t)) + "}"@
}

/// The names of the given artists, in order.
pub open spec fn artist_names(artists: Seq<Artist>) -> Seq<Seq<char>> {
    artists.map_values(|a: Artist| a.name@)
}

impl AlbumTrack {
    /// The track serialized as JSON text.
    pub fn to_json(&self) -> (r: String)
        ensures
            r@ == album_track_json(*self),
    {
        let mut out: Vec<char> = Vec::new();
        push_chars(&mut out, "{\"id\":");
        push_json_string(&mut out, self.id.as_str());
        push_chars(&mut out, ",\"name\":");
        push_json_string(&mut out, self.name.as_str());
        push_chars(&mut out, ",\"duration_ms\":");
        push_u32_decimal(&mut out, self.duration_ms);
        push_chars(&mut out, ",\"explicit\":");
        push_bool(&mut out, self.explicit);
        push_chars(&mut out, ",\"track_number\":");
        push_u32_decimal(&mut out, self.track_number);
        push_chars(&mut out, "}");
        proof {
            assert(out@ =~= album_track_json(*self));
        }
        chars_to_string(&out)
    }
}

impl AlbumItem {
    /// One document per track of the album: the id is the track's own, and
    /// both the metadata and the one fragment are the track's document
    /// value serialized as JSON.
    pub fn tracks(&self) -> (docs: Vec<Document>)
        ensures
            docs@.len() == self.album.tracks.items@.len(),
            forall|i: int|
                0 <= i < docs@.len() ==> {
                    let d = #[trigger] docs@[i];
                    &&& d.id == self.album.tracks.items@[i].id
                    &&& d.metadata@ == track_document_json(*self, self.album.tracks.items@[i])
                    &&& d.fragments@.len() == 1
                    &&& d.fragments@[0]@ == track_document_json(
                        *self,
                        self.album.tracks.items@[i],
                    )
                },
    {
        let date = crate::timestamp::format_timestamp(&self.added_to_my_library);
        let mut docs: Vec<Document> = Vec::new();
        let n = self.album.tracks.items.len();
        let mut i: usize = 0;
        while i < n
            invariant
                n == self.album.tracks.items@.len(),
                i <= n,
                date@ == timestamp_chars(self.added_to_my_library),
                docs@.len() == i as int,
                forall|j: int|
                    0 <= j < i ==> {
                        let d = #[trigger] docs@[j];
                        &&& d.id == self.album.tracks.items@[j].id
                        &&& d.metadata@ == track_document_json(
                            *self,
                            self.album.tracks.items@[j],
                        )
                        &&& d.fragments@.len() == 1
                        &&& d.fragments@[0]@ == track_document_json(
                            *self,
                            self.album.tracks.items@[j],
                        )
                    },
            decreases n - i,
        {
            let track = &self.album.tracks.items[i];
            let mut out: Vec<char> = Vec::new();
            push_chars(&mut out, "{\"added_to_my_library\":");
            push_json_string(&mut out, date.as_str());
            push_chars(&mut out, ",\"album\":");
            push_json_string(&mut out, self.album.name.as_str());
            push_chars(&mut out, ",\"artists\":");
            let mut names: Vec<String> = Vec::new();
            let mut k: usize = 0;
            while k < self.album.artists.len()
                invariant
                    k <= self.album.artists@.len(),
                    string_views(names@) =~= artist_names(self.album.artists@.take(k as int)),
                decreases self.album.artists@.len() - k,
            {
                names.push(self.album.artists[k].name.clone());
                proof {
                    assert(artist_names(self.album.artists@.take(k + 1)) =~= artist_names(
                        self.album.artists@.take(k as int),
                    ).push(self.album.artists@[k as int].name@));
                }
                k = k + 1;
            }
            proof {
                assert(self.album.artists@.take(self.album.artists@.len() as int)
                    =~= self.album.artists@);
            }
            push_json_string_array(&mut out, &names);
            push_chars(&mut out, ",\"release_date\":");
            push_json_string(&mut out, self.album.release_date.as_str());
            push_chars(&mut out, ",\"track\":");
            let track_json = track.to_json();
            push_json_string(&mut out, track_json.as_str());
            push_chars(&mut out, "}");
            proof {
                assert(out@ =~= track_document_json(*self, self.album.tracks.items@[i as int]));
            }
            let value = chars_to_string(&out);
            let mut fragments: Vec<String> = Vec::new();
            fragments.push(value.clone());
            docs.push(Document { id: track.id.clone(), metadata: value, fragments });
            i = i + 1;
        }
        docs
    }
}

/// An artist record serialized as JSON: its fields in declaration order,
/// the kind under the key `type`.
pub open spec fn artist_item_json(a: ArtistItem) -> Seq<char> {
    "{\"id\":"@ + json_string(a.id@) + ",\"name\":"@ + json_string(a.name@) + ",\"genres\":"@
        + json_string_array(string_views(a.genres@)) + ",\"popularity\":"@ + dec_digits(
        a.popularity as int,
    ) + ",\"type\":"@ + json_string(a.item_type@) + "}"@
}

/// The document value built for one artist: the date of the saved album
/// that named the artist, and the artist record re-serialized as a string —
/// keys in sorted order, as a JSON value map holds them.
pub open spec fn artist_document_json(a: ArtistItem, added: Timestamp) -> Seq<char> {
    "{\"added_to_my_library\":"@ + timestamp_json(added) + ",\"item\":"@ + json_string(
        artist_item_json(a),
    ) + "}"@
}

impl ArtistItem {
    /// The artist record serialized as JSON text.
    pub fn to_json(&self) -> (r: String)
        ensures
            r@ == artist_item_json(*self),
    {
        let mut out: Vec<char> = Vec::new();
        push_chars(&mut out, "{\"id\":");
        push_json_string(&mut out, self.id.as_str());
        push_chars(&mut out, ",\"name\":");
        push_json_string(&mut out, self.name.as_str());
        push_chars(&mut out, ",\"genres\":");
        push_json_string_array(&mut out, &self.genres);
        push_chars(&mut out, ",\"popularity\":");
        push_u32_decimal(&mut out, self.popularity);
        push_chars(&mut out, ",\"type\":");
        push_json_string(&mut out, self.item_type.as_str());
        push_chars(&mut out, "}");
        proof {
            assert(out@ =~= artist_item_json(*self));
        }
        chars_to_string(&out)
    }

    /// The document for one artist, paired with the date of the saved
    /// album that named it: the id is the artist's own, and both the
    /// metadata and the one fragment are the document value.
    pub fn document(&self, added: &Timestamp) -> (d: Document)
        ensures
            d.id == self.id,
            d.metadata@ == artist_document_json(*self, *added),
            d.fragments@.len() == 1,
            d.fragments@[0]@ == artist_document_json(*self, *added),
    {
        let date = crate::timestamp::format_timestamp(added);
        let mut out: Vec<char> = Vec::new();
        push_chars(&mut out, "{\"added_to_my_library\":");
        push_json_string(&mut out, date.as_str());
        push_chars(&mut out, ",\"item\":");
        let item_json = self.to_json();
        push_json_string(&mut out, item_json.as_str());
        push_chars(&mut out, "}");
        proof {
            assert(out@ =~= artist_document_json(*self, *added));
        }
        let value = chars_to_string(&out);
        let mut fragments: Vec<String> = Vec::new();
        fragments.push(value.clone());
        Document { id: self.id.clone(), metadata: value, fragments }
    }
}

/// How many batches of up to `size` the given number of ids fill.
pub open spec fn batch_count(len: int, size: int) -> int {
    if len <= 0 {
        0
    } else {
        (len - 1) / size + 1
    }
}

/// Where batch `i` starts: `i` full batches in, clipped to the end.
pub open spec fn batch_start(len: int, size: int, i: int) -> int {
    if i * size > len {
        len
    } else {
        i * size
    }
}

proof fn lemma_batch_start_step(len: int, size: int, i: int)
    requires
        size >= 1,
        len >= 0,
        i >= 0,
    ensures
        0 <= batch_start(len, size, i) <= batch_start(len, size, i + 1) <= len,
        batch_start(len, size, i + 1) - batch_start(len, size, i) <= size,
{
    assert((i + 1) * size == i * size + size) by (nonlinear_arith);
    assert(i * size >= 0) by (nonlinear_arith)
        requires
            i >= 0,
            size >= 1,
    ;
}

proof fn lemma_batch_start_final(len: int, size: int)
    requires
        size >= 1,
        len >= 0,
    ensures
        batch_start(len, size, batch_count(len, size)) == len,
{
    let n = batch_count(len, size);
    if len == 0 {
        assert(n * size == 0) by (nonlinear_arith)
            requires
                n == 0,
        ;
    } else {
        lemma_fundamental_div_mod(len - 1, size);
        assert(n * size >= len) by (nonlinear_arith)
            requires
                size >= 1,
                n == (len - 1) / size + 1,
                len - 1 == size * ((len - 1) / size) + (len - 1) % size,
                0 <= (len - 1) % size < size,
        ;
    }
}

/// Split the ids into consecutive batches of exactly `size`, the last one
/// clipped to what remains, for one request per batch.
pub fn batch_ids(ids: &Vec<String>, size: usize) -> (batches: Vec<Vec<String>>)
    requires
        size >= 1,
    ensures
        batches@.len() == batch_count(ids@.len() as int, size as int),
        forall|i: int|
            0 <= i < batches@.len() ==> (#[trigger] batches@[i])@ == ids@.subrange(
                batch_start(ids@.len() as int, size as int, i),
                batch_start(ids@.len() as int, size as int, i + 1),
            ),
{
    let ghost len = ids@.len() as int;
    let ghost sz = size as int;
    let n = ids.len();
    let count: usize = if n == 0 {
        0
    } else {
        (n - 1) / size + 1
    };
    let mut batches: Vec<Vec<String>> = Vec::new();
    let mut pos: usize = 0;
    let mut i: usize = 0;
    proof {
        assert(0 * sz == 0) by (nonlinear_arith);
    }
    while i < count
        invariant
            n == ids@.len(),
            count == batch_count(len, sz),
            len == ids@.len() as int,
            sz == size as int,
            sz >= 1,
            i <= count,
            pos == batch_start(len, sz, i as int),
            pos <= n,
            batches@.len() == i as int,
            forall|j: int|
                0 <= j < i ==> (#[trigger] batches@[j])@ == ids@.subrange(
                    batch_start(len, sz, j),
                    batch_start(len, sz, j + 1),
                ),
        decreases count - i,
    {
        proof {
            lemma_batch_start_step(len, sz, i as int);
        }
        let take: usize = if n - pos < size {
            n - pos
        } else {
            size
        };
        let mut batch: Vec<String> = Vec::new();
        let mut k: usize = 0;
        while k < take
            invariant
                pos + take <= n,
                n == ids@.len(),
                k <= take,
                batch@ =~= ids@.subrange(pos as int, pos + k),
            decreases take - k,
        {
            batch.push(ids[pos + k].clone());
            proof {
                assert(ids@.subrange(pos as int, pos + k + 1) =~= ids@.subrange(
                    pos as int,
                    pos + k,
                ).push(ids@[pos + k]));
            }
            k = k + 1;
        }
        batches.push(batch);
        proof {
            assert((i + 1) * sz == i * sz + sz) by (nonlinear_arith);
            assert(batches@[i as int]@ =~= ids@.subrange(
                batch_start(len, sz, i as int),
                batch_start(len, sz, i + 1),
            ));
        }
        pos = pos + take;
        i = i + 1;
    }
    batches
}

/// The ids joined with commas, as one request's query parameter.
pub fn join_ids(ids: &Vec<String>) -> (r: String)
    ensures
        r@ == join_with(string_views(ids@), ","@),
{
    let mut out: Vec<char> = Vec::new();
    push_joined(&mut out, ids, ",");
    chars_to_string(&out)
}


/// An album artist serialized as JSON: id, name, and the kind under the
/// key `type`.
pub open spec fn artist_json(a: Artist) -> Seq<char> {
    "{\"id\":"@ + json_string(a.id@) + ",\"name\":"@ + json_string(a.name@) + ",\"type\":"@
        + json_string(a.item_type@) + "}"@
}

/// The JSON array of an album's artists.
pub open spec fn artists_json_array(artists: Seq<Artist>) -> Seq<char> {
    seq!['['] + join_with(artists.map_values(|a: Artist| artist_json(a)), seq![',']) + seq![']']
}

/// An album serialized as JSON: its fields in declaration order, the track
/// listing left out.
pub open spec fn album_json(a: Album) -> Seq<char> {
    "{\"album_type\":"@ + json_string(a.album_type@) + ",\"total_tracks\":"@ + dec_digits(
        a.total_tracks as int,
    ) + ",\"id\":"@ + json_string(a.id@) + ",\"name\":"@ + json_string(a.name@)
        + ",\"release_date\":"@ + json_string(a.release_date@) + ",\"release_date_precision\":"@
        + json_string(a.release_date_precision@) + ",\"artists\":"@ + artists_json_array(
        a.artists@,
    ) + ",\"genres\":"@ + json_string_array(string_views(a.genres@)) + ",\"label\":"@
        + json_string(a.label@) + ",\"popularity\":"@ + dec_digits(a.popularity as int) + "}"@
}

/// A saved album serialized as JSON: the date it was added under the key
/// `added_at`, then the album.
pub open spec fn album_item_json(item: AlbumItem) -> Seq<char> {
    "{\"added_at\":"@ + timestamp_json(item.added_to_my_library) + ",\"album\":"@ + album_json(
        item.album,
    ) + "}"@
}

/// Append the JSON array of the album's artists.
fn push_artists_array(out: &mut Vec<char>, artists: &Vec<Artist>)
    ensures
        final(out)@ == old(out)@ + artists_json_array(artists@),
{
    let ghost parts = artists@.map_values(|a: Artist| artist_json(a));
    out.push('[');
    let n = artists.len();
    let mut i: usize = 0;
    while i < n
        invariant
            n == artists@.len(),
            i <= n,
            parts == artists@.map_values(|a: Artist| artist_json(a)),
            out@ == old(out)@ + seq!['['] + join_with(parts.take(i as int), seq![',']),
        decreases n - i,
    {
        if i > 0 {
            out.push(',');
        }
        let a = &artists[i];
        push_chars(out, "{\"id\":");
        push_json_string(out, a.id.as_str());
        push_chars(out, ",\"name\":");
        push_json_string(out, a.name.as_str());
        push_chars(out, ",\"type\":");
        push_json_string(out, a.item_type.as_str());
        push_chars(out, "}");
        proof {
            lemma_join_with_step(parts, seq![','], i as int);
            assert(parts[i as int] == artist_json(artists@[i as int]));
            assert(out@ =~= old(out)@ + seq!['['] + join_with(parts.take(i + 1), seq![',']));
        }
        i = i + 1;
    }
    out.push(']');
    proof {
        assert(parts.take(n as int) =~= parts);
        assert(out@ =~= old(out)@ + artists_json_array(artists@));
    }
}

impl Album {
    /// The album serialized as JSON text, its track listing left out.
    pub fn to_json(&self) -> (r: String)
        ensures
            r@ == album_json(*self),
    {
        let mut out: Vec<char> = Vec::new();
        push_chars(&mut out, "{\"album_type\":");
        push_json_string(&mut out, self.album_type.as_str());
        push_chars(&mut out, ",\"total_tracks\":");
        push_u32_decimal(&mut out, self.total_tracks);
        push_chars(&mut out, ",\"id\":");
        push_json_string(&mut out, self.id.as_str());
        push_chars(&mut out, ",\"name\":");
        push_json_string(&mut out, self.name.as_str());
        push_chars(&mut out, ",\"release_date\":");
        push_json_string(&mut out, self.release_date.as_str());
        push_chars(&mut out, ",\"release_date_precision\":");
        push_json_string(&mut out, self.release_date_precision.as_str());
        push_chars(&mut out, ",\"artists\":");
        push_artists_array(&mut out, &self.artists);
        push_chars(&mut out, ",\"genres\":");
        push_json_string_array(&mut out, &self.genres);
        push_chars(&mut out, ",\"label\":");
        push_json_string(&mut out, self.label.as_str());
        push_chars(&mut out, ",\"popularity\":");
        push_u32_decimal(&mut out, self.popularity);
        push_chars(&mut out, "}");
        proof {
            assert(out@ =~= album_json(*self));
        }
        chars_to_string(&out)
    }
}

impl AlbumItem {
    /// The saved album serialized as JSON text.
    pub fn to_json(&self) -> (r: String)
        ensures
            r@ == album_item_json(*self),
    {
        let date = crate::timestamp::format_timestamp(&self.added_to_my_library);
        let mut out: Vec<char> = Vec::new();
        push_chars(&mut out, "{\"added_at\":");
        push_json_string(&mut out, date.as_str());
        push_chars(&mut out, ",\"album\":");
        let album = self.album.to_json();
        push_chars(&mut out, album.as_str());
        push_chars(&mut out, "}");
        proof {
            assert(out@ =~= album_item_json(*self));
        }
        chars_to_string(&out)
    }

    /// The document for the saved album itself: the id is the album's own,
    /// and both the metadata and the one fragment are the album serialized
    /// as JSON.
    pub fn document(&self) -> (d: Document)
        ensures
            d.id == self.album.id,
            d.metadata@ == album_item_json(*self),
            d.fragments@.len() == 1,
            d.fragments@[0]@ == album_item_json(*self),
    {
        let value = self.to_json();
        let mut fragments: Vec<String> = Vec::new();
        fragments.push(value.clone());
        Document { id: self.album.id.clone(), metadata: value, fragments }
    }
}

} // verus!
