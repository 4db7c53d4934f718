//! Media files as the Admin API returns them.
use vstd::prelude::*;

use crate::domain::error::DomainError;
use crate::domain::media::{AssociatedId, Image, Media, MediaContent, MediaStatus, Src};
use crate::domain::time::Timestamp;
use crate::infrastructure::ec::shopify::gql_helper::gid_tail;
use crate::infrastructure::ec::shopify::query_helper::ShopifyGQLQueryHelper;
use crate::infrastructure::ec::shopify::repository::schema::common::Edges;
use crate::text::str_equals;

verus! {

#[derive(Debug)]
pub struct MediaData {
    pub files: Edges<MediaNode>,
}

#[derive(Debug)]
pub struct MediaNode {
    pub id: String,
    pub file_status: String,
    pub alt: Option<String>,
    pub preview: Option<MediaPreviewImage>,
    pub created_at: Timestamp,
    pub updated_at: Timestamp,
}

#[derive(Debug)]
pub struct MediaPreviewImage {
    pub image: Option<ImageNode>,
}

#[derive(Debug)]
pub struct ImageNode {
    pub id: String,
    pub alt_text: Option<String>,
    pub height: Option<i32>,
    pub width: Option<i32>,
    pub url: String,
}

/// The media status of a file status.
pub open spec fn media_status_of(file_status: Seq<char>) -> Option<MediaStatus> {
    if file_status == "UPLOADED"@ || file_status == "READY"@ {
        Some(MediaStatus::Active)
    } else if file_status == "FAILED"@ {
        Some(MediaStatus::Inactive)
    } else if file_status == "PROCESSING"@ {
        Some(MediaStatus::InPreparation)
    } else {
        None
    }
}

/// An image node converts when its URL and the bare id of its gid are not empty.
pub open spec fn image_node_valid(node: ImageNode) -> bool {
    node.url@.len() > 0 && gid_tail(node.id@).len() > 0
}

/// `image` is the conversion of `node` for `associated_id`.
pub open spec fn image_of_node(node: ImageNode, associated_id: Option<AssociatedId>, image: Image) -> bool {
    &&& image.id@ == gid_tail(node.id@)
    &&& image.associated_id == associated_id
    &&& image.alt == node.alt_text
    &&& image.uploaded_src is None
    &&& image.published_src == Some(Src { value: node.url })
}

/// The image of a media node's preview, if it has one.
pub open spec fn preview_image(node: MediaNode) -> Option<ImageNode> {
    match node.preview {
        Some(p) => p.image,
        None => None,
    }
}

/// The outcome of converting a media node: an unknown status is a conversion error;
/// an invalid preview image or an empty id a validation error.
pub open spec fn media_node_outcome(node: MediaNode) -> Result<(), DomainError> {
    if media_status_of(node.file_status@) is None {
        Err(DomainError::ConversionError)
    } else if preview_image(node) matches Some(i) && !image_node_valid(i) {
        Err(DomainError::ValidationError)
    } else if gid_tail(node.id@).len() == 0 {
        Err(DomainError::ValidationError)
    } else {
        Ok(())
    }
}

/// `media` is the conversion of `node` for `associated_id`.
pub open spec fn media_of_node(node: MediaNode, associated_id: Option<AssociatedId>, media: Media) -> bool {
    &&& media.id@ == gid_tail(node.id@)
    &&& media.name is None
    &&& Some(media.status) == media_status_of(node.file_status@)
    &&& match preview_image(node) {
        Some(i) => media.content matches Some(MediaContent::Image(image)) && image_of_node(i, associated_id, image),
        None => media.content is None,
    }
    &&& media.created_at == node.created_at
    &&& media.updated_at == node.updated_at
}

impl ImageNode {
    pub fn to_domain(self, associated_id: Option<AssociatedId>) -> (r: Result<Image, DomainError>)
        ensures
            r is Ok <==> image_node_valid(self),
            r is Err ==> r == Err::<Image, DomainError>(DomainError::ValidationError),
            r matches Ok(image) ==> image_of_node(self, associated_id, image),
    {
        let src = match Src::new(self.url) {
            Ok(s) => s,
            Err(e) => {
                return Err(e);
            },
        };
        Image::new(
            ShopifyGQLQueryHelper::remove_gid_prefix(self.id.as_str()),
            associated_id,
            self.alt_text,
            None,
            Some(src),
        )
    }
}

fn parse_media_status(file_status: &str) -> (r: Option<MediaStatus>)
    ensures
        r == media_status_of(file_status@),
{
    if str_equals(file_status, "UPLOADED") || str_equals(file_status, "READY") {
        Some(MediaStatus::Active)
    } else if str_equals(file_status, "FAILED") {
        Some(MediaStatus::Inactive)
    } else if str_equals(file_status, "PROCESSING") {
        Some(MediaStatus::InPreparation)
    } else {
        None
    }
}

impl MediaNode {
    pub fn to_domain(self, associated_id: Option<AssociatedId>) -> (r: Result<Media, DomainError>)
        ensures
            r is Ok <==> media_node_outcome(self) is Ok,
            media_node_outcome(self) matches Err(e) ==> r == Err::<Media, DomainError>(e),
            r matches Ok(media) ==> media_of_node(self, associated_id, media),
    {
        let status = match parse_media_status(self.file_status.as_str()) {
            Some(s) => s,
            None => {
                return Err(DomainError::ConversionError);
            },
        };
        let image_node = match self.preview {
            Some(p) => p.image,
            None => None,
        };
        let image = match image_node {
            Some(i) => match i.to_domain(associated_id) {
                Ok(image) => Some(MediaContent::Image(image)),
                Err(e) => {
                    return Err(e);
                },
            },
            None => None,
        };
        Media::new(
            ShopifyGQLQueryHelper::remove_gid_prefix(self.id.as_str()),
            None,
            status,
            image,
            self.created_at,
            self.updated_at,
        )
    }

    /// Converts the nodes paired, in order, with the associated ids; extra nodes or ids
    /// are left out.
    #[verifier::rlimit(40)]
    pub fn to_domains(schemas: Vec<Self>, associated_ids: Vec<Option<AssociatedId>>) -> (r: Result<Vec<Media>, DomainError>)
        ensures
            ({
                let n = if schemas@.len() < associated_ids@.len() { schemas@.len() } else { associated_ids@.len() };
                &&& r is Ok <==> forall|k: int| 0 <= k < n ==> media_node_outcome(#[trigger] schemas@[k]) is Ok
                &&& r matches Err(e) ==> exists|k: int|
                    0 <= k < n && media_node_outcome(#[trigger] schemas@[k]) == Err::<(), DomainError>(e)
                        && forall|m: int| 0 <= m < k ==> media_node_outcome(#[trigger] schemas@[m]) is Ok
                &&& r matches Ok(media) ==> media@.len() == n && forall|k: int|
                    0 <= k < n ==> media_of_node(#[trigger] schemas@[k], associated_ids@[k], media@[k])
            }),
    {
        let ghost all = schemas@;
        let ghost ids = associated_ids@;
        let mut rest = schemas;
        let mut rest_ids = associated_ids;
        let total = if rest.len() < rest_ids.len() { rest.len() } else { rest_ids.len() };
        let mut out: Vec<Media> = Vec::new();
        let mut i: usize = 0;
        while i < total
            invariant
                all == schemas@,
                ids == associated_ids@,
                total as int == if all.len() < ids.len() { all.len() as int } else { ids.len() as int },
                i <= total,
                rest@ == all.subrange(i as int, all.len() as int),
                rest_ids@ == ids.subrange(i as int, ids.len() as int),
                out@.len() == i,
                forall|k: int| 0 <= k < i ==> media_node_outcome(#[trigger] all[k]) is Ok,
                forall|k: int| 0 <= k < i ==> media_of_node(#[trigger] all[k], ids[k], out@[k]),
            decreases total - i,
        {
            let node = rest.remove(0);
            let id = rest_ids.remove(0);
            assert(node == all[i as int]);
            assert(id == ids[i as int]);
            match node.to_domain(id) {
                Ok(media) => {
                    out.push(media);
                },
                Err(e) => {
                    assert(media_node_outcome(all[i as int]) == Err::<(), DomainError>(e));
                    return Err(e);
                },
            }
            assert(rest@ =~= all.subrange(i + 1, all.len() as int));
            assert(rest_ids@ =~= ids.subrange(i + 1, ids.len() as int));
            i = i + 1;
        }
        Ok(out)
    }
}

} // verus!
