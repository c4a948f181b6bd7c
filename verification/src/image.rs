//! The image record, its nested records, and their decoders.
//!
//! `image:create` and `image:update` frames carry `{image: {...}}`. The
//! image record keeps its two non-integral numbers (`wilson_score`,
//! `aspect_ratio`) and the corner intensities as JSON number values: the
//! protocol logic never reads them, it only checks their shape.

use vstd::prelude::*;
use crate::json::{
    JsonField, JsonValue, get_bool, get_field, get_i64, get_i64_vec, get_number,
    get_opt_i64, get_opt_string, get_opt_u64, get_string, get_string_vec, spec_first,
    spec_opt_i64, spec_opt_string, spec_opt_u64, spec_req_bool, spec_req_i64,
    spec_req_i64_seq, spec_req_number, spec_req_string, spec_req_string_seq,
};

verus! {

/// The corner intensities of an image, each a JSON number.
pub struct Intensities {
    pub ne: JsonValue,
    pub nw: JsonValue,
    pub se: JsonValue,
    pub sw: JsonValue,
}

/// The prebuilt representations of an image, by size.
#[derive(Debug, Clone, PartialEq)]
pub struct Representations {
    pub full: String,
    pub large: String,
    pub medium: String,
    pub small: String,
    pub tall: String,
    pub thumb: String,
    pub thumb_small: String,
    pub thumb_tiny: String,
}

/// An image on the site.
pub struct Image {
    pub name: String,
    pub faves: i64,
    pub format: String,
    pub updated_at: String,
    pub downvotes: i64,
    pub duplicate_of: Option<u64>,
    pub tag_count: i64,
    pub spoilered: bool,
    pub uploader: Option<String>,
    pub deletion_reason: Option<String>,
    pub width: i64,
    pub processed: bool,
    pub created_at: String,
    pub orig_sha512_hash: String,
    pub view_url: String,
    pub uploader_id: Option<i64>,
    pub intensities: Intensities,
    pub score: i64,
    pub height: i64,
    pub mime_type: String,
    pub tag_ids: Vec<i64>,
    pub wilson_score: JsonValue,
    pub first_seen_at: String,
    pub tags: Vec<String>,
    pub id: i64,
    pub upvotes: i64,
    pub comment_count: i64,
    pub representations: Representations,
    pub thumbnails_generated: bool,
    pub aspect_ratio: JsonValue,
    pub hidden_from_users: bool,
    pub sha512_hash: String,
    pub source_url: Option<String>,
    pub description: String,
}

/// The mathematical form of an image record: its vector members as
/// sequences, everything else as in `Image`.
pub struct SpecImage {
    pub name: String,
    pub faves: i64,
    pub format: String,
    pub updated_at: String,
    pub downvotes: i64,
    pub duplicate_of: Option<u64>,
    pub tag_count: i64,
    pub spoilered: bool,
    pub uploader: Option<String>,
    pub deletion_reason: Option<String>,
    pub width: i64,
    pub processed: bool,
    pub created_at: String,
    pub orig_sha512_hash: String,
    pub view_url: String,
    pub uploader_id: Option<i64>,
    pub intensities: Intensities,
    pub score: i64,
    pub height: i64,
    pub mime_type: String,
    pub tag_ids: Seq<i64>,
    pub wilson_score: JsonValue,
    pub first_seen_at: String,
    pub tags: Seq<String>,
    pub id: i64,
    pub upvotes: i64,
    pub comment_count: i64,
    pub representations: Representations,
    pub thumbnails_generated: bool,
    pub aspect_ratio: JsonValue,
    pub hidden_from_users: bool,
    pub sha512_hash: String,
    pub source_url: Option<String>,
    pub description: String,
}

impl Image {
    /// The mathematical form of this image record.
    pub open spec fn deep(self) -> SpecImage {
        SpecImage {
            name: self.name,
            faves: self.faves,
            format: self.format,
            updated_at: self.updated_at,
            downvotes: self.downvotes,
            duplicate_of: self.duplicate_of,
            tag_count: self.tag_count,
            spoilered: self.spoilered,
            uploader: self.uploader,
            deletion_reason: self.deletion_reason,
            width: self.width,
            processed: self.processed,
            created_at: self.created_at,
            orig_sha512_hash: self.orig_sha512_hash,
            view_url: self.view_url,
            uploader_id: self.uploader_id,
            intensities: self.intensities,
            score: self.score,
            height: self.height,
            mime_type: self.mime_type,
            tag_ids: self.tag_ids@,
            wilson_score: self.wilson_score,
            first_seen_at: self.first_seen_at,
            tags: self.tags@,
            id: self.id,
            upvotes: self.upvotes,
            comment_count: self.comment_count,
            representations: self.representations,
            thumbnails_generated: self.thumbnails_generated,
            aspect_ratio: self.aspect_ratio,
            hidden_from_users: self.hidden_from_users,
            sha512_hash: self.sha512_hash,
            source_url: self.source_url,
            description: self.description,
        }
    }
}

/// The corner intensities described by an object's members.
pub open spec fn spec_intensities(fields: Seq<JsonField>) -> Option<Intensities> {
    let ne = spec_req_number(spec_first(fields, "ne"@));
    let nw = spec_req_number(spec_first(fields, "nw"@));
    let se = spec_req_number(spec_first(fields, "se"@));
    let sw = spec_req_number(spec_first(fields, "sw"@));
    if ne is Some && nw is Some && se is Some && sw is Some {
        Some(Intensities {
            ne: ne->Some_0,
            nw: nw->Some_0,
            se: se->Some_0,
            sw: sw->Some_0,
        })
    } else {
        None
    }
}

/// The intensities member of an image object, if well shaped.
pub open spec fn spec_intensities_member(o: Option<JsonValue>) -> Option<Intensities> {
    match o {
        Some(JsonValue::Obj(inner)) => spec_intensities(inner@),
        _ => None,
    }
}

/// The representations described by an object's members.
pub open spec fn spec_representations(fields: Seq<JsonField>) -> Option<Representations> {
    let full = spec_req_string(spec_first(fields, "full"@));
    let large = spec_req_string(spec_first(fields, "large"@));
    let medium = spec_req_string(spec_first(fields, "medium"@));
    let small = spec_req_string(spec_first(fields, "small"@));
    let tall = spec_req_string(spec_first(fields, "tall"@));
    let thumb = spec_req_string(spec_first(fields, "thumb"@));
    let thumb_small = spec_req_string(spec_first(fields, "thumb_small"@));
    let thumb_tiny = spec_req_string(spec_first(fields, "thumb_tiny"@));
    if full is Some && large is Some && medium is Some && small is Some && tall is Some
        && thumb is Some && thumb_small is Some && thumb_tiny is Some {
        Some(Representations {
            full: full->Some_0,
            large: large->Some_0,
            medium: medium->Some_0,
            small: small->Some_0,
            tall: tall->Some_0,
            thumb: thumb->Some_0,
            thumb_small: thumb_small->Some_0,
            thumb_tiny: thumb_tiny->Some_0,
        })
    } else {
        None
    }
}

/// The representations member of an image object, if well shaped.
pub open spec fn spec_representations_member(o: Option<JsonValue>) -> Option<Representations> {
    match o {
        Some(JsonValue::Obj(inner)) => spec_representations(inner@),
        _ => None,
    }
}

/// The image record described by an object's members, if well shaped.
pub open spec fn spec_image(fields: Seq<JsonField>) -> Option<SpecImage> {
    let name = spec_req_string(spec_first(fields, "name"@));
    let faves = spec_req_i64(spec_first(fields, "faves"@));
    let format = spec_req_string(spec_first(fields, "format"@));
    let updated_at = spec_req_string(spec_first(fields, "updated_at"@));
    let downvotes = spec_req_i64(spec_first(fields, "downvotes"@));
    let duplicate_of = spec_opt_u64(spec_first(fields, "duplicate_of"@));
    let tag_count = spec_req_i64(spec_first(fields, "tag_count"@));
    let spoilered = spec_req_bool(spec_first(fields, "spoilered"@));
    let uploader = spec_opt_string(spec_first(fields, "uploader"@));
    let deletion_reason = spec_opt_string(spec_first(fields, "deletion_reason"@));
    let width = spec_req_i64(spec_first(fields, "width"@));
    let processed = spec_req_bool(spec_first(fields, "processed"@));
    let created_at = spec_req_string(spec_first(fields, "created_at"@));
    let orig_sha512_hash = spec_req_string(spec_first(fields, "orig_sha512_hash"@));
    let view_url = spec_req_string(spec_first(fields, "view_url"@));
    let uploader_id = spec_opt_i64(spec_first(fields, "uploader_id"@));
    let intensities = spec_intensities_member(spec_first(fields, "intensities"@));
    let score = spec_req_i64(spec_first(fields, "score"@));
    let height = spec_req_i64(spec_first(fields, "height"@));
    let mime_type = spec_req_string(spec_first(fields, "mime_type"@));
    let tag_ids = spec_req_i64_seq(spec_first(fields, "tag_ids"@));
    let wilson_score = spec_req_number(spec_first(fields, "wilson_score"@));
    let first_seen_at = spec_req_string(spec_first(fields, "first_seen_at"@));
    let tags = spec_req_string_seq(spec_first(fields, "tags"@));
    let id = spec_req_i64(spec_first(fields, "id"@));
    let upvotes = spec_req_i64(spec_first(fields, "upvotes"@));
    let comment_count = spec_req_i64(spec_first(fields, "comment_count"@));
    let representations = spec_representations_member(spec_first(fields, "representations"@));
    let thumbnails_generated = spec_req_bool(spec_first(fields, "thumbnails_generated"@));
    let aspect_ratio = spec_req_number(spec_first(fields, "aspect_ratio"@));
    let hidden_from_users = spec_req_bool(spec_first(fields, "hidden_from_users"@));
    let sha512_hash = spec_req_string(spec_first(fields, "sha512_hash"@));
    let source_url = spec_opt_string(spec_first(fields, "source_url"@));
    let description = spec_req_string(spec_first(fields, "description"@));
    if name is Some && faves is Some && format is Some && updated_at is Some
        && downvotes is Some && duplicate_of is Some && tag_count is Some
        && spoilered is Some && uploader is Some && deletion_reason is Some
        && width is Some && processed is Some && created_at is Some
        && orig_sha512_hash is Some && view_url is Some && uploader_id is Some
        && intensities is Some && score is Some && height is Some && mime_type is Some
        && tag_ids is Some && wilson_score is Some && first_seen_at is Some
        && tags is Some && id is Some && upvotes is Some && comment_count is Some
        && representations is Some && thumbnails_generated is Some
        && aspect_ratio is Some && hidden_from_users is Some && sha512_hash is Some
        && source_url is Some && description is Some {
        Some(SpecImage {
            name: name->Some_0,
            faves: faves->Some_0,
            format: format->Some_0,
            updated_at: updated_at->Some_0,
            downvotes: downvotes->Some_0,
            duplicate_of: duplicate_of->Some_0,
            tag_count: tag_count->Some_0,
            spoilered: spoilered->Some_0,
            uploader: uploader->Some_0,
            deletion_reason: deletion_reason->Some_0,
            width: width->Some_0,
            processed: processed->Some_0,
            created_at: created_at->Some_0,
            orig_sha512_hash: orig_sha512_hash->Some_0,
            view_url: view_url->Some_0,
            uploader_id: uploader_id->Some_0,
            intensities: intensities->Some_0,
            score: score->Some_0,
            height: height->Some_0,
            mime_type: mime_type->Some_0,
            tag_ids: tag_ids->Some_0,
            wilson_score: wilson_score->Some_0,
            first_seen_at: first_seen_at->Some_0,
            tags: tags->Some_0,
            id: id->Some_0,
            upvotes: upvotes->Some_0,
            comment_count: comment_count->Some_0,
            representations: representations->Some_0,
            thumbnails_generated: thumbnails_generated->Some_0,
            aspect_ratio: aspect_ratio->Some_0,
            hidden_from_users: hidden_from_users->Some_0,
            sha512_hash: sha512_hash->Some_0,
            source_url: source_url->Some_0,
            description: description->Some_0,
        })
    } else {
        None
    }
}

/// Decodes the corner intensities out of an object's members.
pub fn decode_intensities_fields(fields: &Vec<JsonField>) -> (r: Option<Intensities>)
    ensures
        r == spec_intensities(fields@),
{
    let ne = match get_number(fields, "ne") {
        Some(v) => v,
        None => {
            return None;
        },
    };
    let nw = match get_number(fields, "nw") {
        Some(v) => v,
        None => {
            return None;
        },
    };
    let se = match get_number(fields, "se") {
        Some(v) => v,
        None => {
            return None;
        },
    };
    let sw = match get_number(fields, "sw") {
        Some(v) => v,
        None => {
            return None;
        },
    };
    Some(Intensities { ne, nw, se, sw })
}

/// Decodes the representations out of an object's members.
pub fn decode_representations_fields(fields: &Vec<JsonField>) -> (r: Option<Representations>)
    ensures
        r == spec_representations(fields@),
{
    let full = match get_string(fields, "full") {
        Some(s) => s,
        None => {
            return None;
        },
    };
    let large = match get_string(fields, "large") {
        Some(s) => s,
        None => {
            return None;
        },
    };
    let medium = match get_string(fields, "medium") {
        Some(s) => s,
        None => {
            return None;
        },
    };
    let small = match get_string(fields, "small") {
        Some(s) => s,
        None => {
            return None;
        },
    };
    let tall = match get_string(fields, "tall") {
        Some(s) => s,
        None => {
            return None;
        },
    };
    let thumb = match get_string(fields, "thumb") {
        Some(s) => s,
        None => {
            return None;
        },
    };
    let thumb_small = match get_string(fields, "thumb_small") {
        Some(s) => s,
        None => {
            return None;
        },
    };
    let thumb_tiny = match get_string(fields, "thumb_tiny") {
        Some(s) => s,
        None => {
            return None;
        },
    };
    Some(Representations {
        full,
        large,
        medium,
        small,
        tall,
        thumb,
        thumb_small,
        thumb_tiny,
    })
}

/// Decodes the image record out of an object's members.
pub fn decode_image_fields(fields: &Vec<JsonField>) -> (r: Option<Image>)
    ensures
        match spec_image(fields@) {
            Some(si) => r matches Some(img) && img.deep() == si,
            None => r is None,
        },
{
    let name = match get_string(fields, "name") {
        Some(s) => s,
        None => {
            return None;
        },
    };
    let faves = match get_i64(fields, "faves") {
        Some(n) => n,
        None => {
            return None;
        },
    };
    let format = match get_string(fields, "format") {
        Some(s) => s,
        None => {
            return None;
        },
    };
    let updated_at = match get_string(fields, "updated_at") {
        Some(s) => s,
        None => {
            return None;
        },
    };
    let downvotes = match get_i64(fields, "downvotes") {
        Some(n) => n,
        None => {
            return None;
        },
    };
    let duplicate_of = match get_opt_u64(fields, "duplicate_of") {
        Some(o) => o,
        None => {
            return None;
        },
    };
    let tag_count = match get_i64(fields, "tag_count") {
        Some(n) => n,
        None => {
            return None;
        },
    };
    let spoilered = match get_bool(fields, "spoilered") {
        Some(b) => b,
        None => {
            return None;
        },
    };
    let uploader = match get_opt_string(fields, "uploader") {
        Some(o) => o,
        None => {
            return None;
        },
    };
    let deletion_reason = match get_opt_string(fields, "deletion_reason") {
        Some(o) => o,
        None => {
            return None;
        },
    };
    let width = match get_i64(fields, "width") {
        Some(n) => n,
        None => {
            return None;
        },
    };
    let processed = match get_bool(fields, "processed") {
        Some(b) => b,
        None => {
            return None;
        },
    };
    let created_at = match get_string(fields, "created_at") {
        Some(s) => s,
        None => {
            return None;
        },
    };
    let orig_sha512_hash = match get_string(fields, "orig_sha512_hash") {
        Some(s) => s,
        None => {
            return None;
        },
    };
    let view_url = match get_string(fields, "view_url") {
        Some(s) => s,
        None => {
            return None;
        },
    };
    let uploader_id = match get_opt_i64(fields, "uploader_id") {
        Some(o) => o,
        None => {
            return None;
        },
    };
    let intensities = match get_field(fields, "intensities") {
        Some(JsonValue::Obj(inner)) => match decode_intensities_fields(inner) {
            Some(x) => x,
            None => {
                return None;
            },
        },
        _ => {
            return None;
        },
    };
    let score = match get_i64(fields, "score") {
        Some(n) => n,
        None => {
            return None;
        },
    };
    let height = match get_i64(fields, "height") {
        Some(n) => n,
        None => {
            return None;
        },
    };
    let mime_type = match get_string(fields, "mime_type") {
        Some(s) => s,
        None => {
            return None;
        },
    };
    let tag_ids = match get_i64_vec(fields, "tag_ids") {
        Some(v) => v,
        None => {
            return None;
        },
    };
    let wilson_score = match get_number(fields, "wilson_score") {
        Some(v) => v,
        None => {
            return None;
        },
    };
    let first_seen_at = match get_string(fields, "first_seen_at") {
        Some(s) => s,
        None => {
            return None;
        },
    };
    let tags = match get_string_vec(fields, "tags") {
        Some(v) => v,
        None => {
            return None;
        },
    };
    let id = match get_i64(fields, "id") {
        Some(n) => n,
        None => {
            return None;
        },
    };
    let upvotes = match get_i64(fields, "upvotes") {
        Some(n) => n,
        None => {
            return None;
        },
    };
    let comment_count = match get_i64(fields, "comment_count") {
        Some(n) => n,
        None => {
            return None;
        },
    };
    let representations = match get_field(fields, "representations") {
        Some(JsonValue::Obj(inner)) => match decode_representations_fields(inner) {
            Some(x) => x,
            None => {
                return None;
            },
        },
        _ => {
            return None;
        },
    };
    let thumbnails_generated = match get_bool(fields, "thumbnails_generated") {
        Some(b) => b,
        None => {
            return None;
        },
    };
    let aspect_ratio = match get_number(fields, "aspect_ratio") {
        Some(v) => v,
        None => {
            return None;
        },
    };
    let hidden_from_users = match get_bool(fields, "hidden_from_users") {
        Some(b) => b,
        None => {
            return None;
        },
    };
    let sha512_hash = match get_string(fields, "sha512_hash") {
        Some(s) => s,
        None => {
            return None;
        },
    };
    let source_url = match get_opt_string(fields, "source_url") {
        Some(o) => o,
        None => {
            return None;
        },
    };
    let description = match get_string(fields, "description") {
        Some(s) => s,
        None => {
            return None;
        },
    };
    Some(Image {
        name,
        faves,
        format,
        updated_at,
        downvotes,
        duplicate_of,
        tag_count,
        spoilered,
        uploader,
        deletion_reason,
        width,
        processed,
        created_at,
        orig_sha512_hash,
        view_url,
        uploader_id,
        intensities,
        score,
        height,
        mime_type,
        tag_ids,
        wilson_score,
        first_seen_at,
        tags,
        id,
        upvotes,
        comment_count,
        representations,
        thumbnails_generated,
        aspect_ratio,
        hidden_from_users,
        sha512_hash,
        source_url,
        description,
    })
}

} // verus!
