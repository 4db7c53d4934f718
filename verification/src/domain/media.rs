//! Media files and the images they show.
use vstd::prelude::*;

use crate::domain::error::DomainError;
use crate::domain::time::Timestamp;

verus! {

/// The entity that an image belongs to.
#[derive(Clone, Debug)]
pub enum AssociatedId {
    Product(String),
    Customer(String),
}

/// The URL that an image is served from.
#[derive(Clone, Debug)]
pub struct Src {
    pub value: String,
}

impl Src {
    /// A source URL; it must not be empty.
    pub fn new(value: String) -> (r: Result<Src, DomainError>)
        ensures
            value@.len() == 0 ==> r == Err::<Src, DomainError>(DomainError::ValidationError),
            value@.len() > 0 ==> r == Ok::<Src, DomainError>(Src { value }),
    {
        if value.as_str().unicode_len() == 0 {
            return Err(DomainError::ValidationError);
        }
        Ok(Src { value })
    }
}

#[derive(Clone, Debug)]
pub struct Image {
    pub id: String,
    pub associated_id: Option<AssociatedId>,
    pub alt: Option<String>,
    pub uploaded_src: Option<Src>,
    pub published_src: Option<Src>,
}

impl Image {
    /// An image; its id must not be empty.
    pub fn new(
        id: String,
        associated_id: Option<AssociatedId>,
        alt: Option<String>,
        uploaded_src: Option<Src>,
        published_src: Option<Src>,
    ) -> (r: Result<Image, DomainError>)
        ensures
            id@.len() == 0 ==> r == Err::<Image, DomainError>(DomainError::ValidationError),
            id@.len() > 0 ==> r == Ok::<Image, DomainError>(
                Image { id, associated_id, alt, uploaded_src, published_src },
            ),
    {
        if id.as_str().unicode_len() == 0 {
            return Err(DomainError::ValidationError);
        }
        Ok(Image { id, associated_id, alt, uploaded_src, published_src })
    }
}

#[derive(Clone, Copy, Debug, PartialEq, Eq, Structural)]
pub enum MediaStatus {
    Active,
    Inactive,
    InPreparation,
}

#[derive(Clone, Debug)]
pub enum MediaContent {
    Image(Image),
}

#[derive(Clone, Debug)]
pub struct Media {
    pub id: String,
    pub name: Option<String>,
    pub status: MediaStatus,
    pub content: Option<MediaContent>,
    pub created_at: Timestamp,
    pub updated_at: Timestamp,
}

impl Media {
    /// A media file; its id must not be empty.
    pub fn new(
        id: String,
        name: Option<String>,
        status: MediaStatus,
        content: Option<MediaContent>,
        created_at: Timestamp,
        updated_at: Timestamp,
    ) -> (r: Result<Media, DomainError>)
        ensures
            id@.len() == 0 ==> r == Err::<Media, DomainError>(DomainError::ValidationError),
            id@.len() > 0 ==> r == Ok::<Media, DomainError>(
                Media { id, name, status, content, created_at, updated_at },
            ),
    {
        if id.as_str().unicode_len() == 0 {
            return Err(DomainError::ValidationError);
        }
        Ok(Media { id, name, status, content, created_at, updated_at })
    }
}

} // verus!
