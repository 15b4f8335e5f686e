//! Dispatch of an arriving part by its declared name.

use vstd::prelude::*;

verus! {

/// One of the two images that a request may carry.
#[derive(Clone, Copy, Debug, PartialEq, Eq, Structural)]
pub enum ImageSlot {
    /// The author's avatar, sent as the part `avatar`.
    Avatar,
    /// The image of the post, sent as the part `image`.
    PostImage,
}

/// How a part is handled.
#[derive(Clone, Copy, Debug, PartialEq, Eq, Structural)]
pub enum FieldRole {
    /// The structured metadata, sent as the part `data`.
    Metadata,
    /// The avatar image.
    Avatar,
    /// The post image.
    PostImage,
    /// Any other name: the request is refused.
    Unknown,
}

/// The role that a declared name stands for.
pub open spec fn role_of(name: Seq<char>) -> FieldRole {
    if name == "data"@ {
        FieldRole::Metadata
    } else if name == "avatar"@ {
        FieldRole::Avatar
    } else if name == "image"@ {
        FieldRole::PostImage
    } else {
        FieldRole::Unknown
    }
}

/// Classifies one arriving part by its declared name.
pub fn classify_field(name: &str) -> (role: FieldRole)
    ensures
        role == role_of(name@),
{
    let name = name.to_owned();
    if name == "data".to_owned() {
        FieldRole::Metadata
    } else if name == "avatar".to_owned() {
        FieldRole::Avatar
    } else if name == "image".to_owned() {
        FieldRole::PostImage
    } else {
        FieldRole::Unknown
    }
}

impl FieldRole {
    /// The slot that a part of this role fills, if it is an image.
    pub open spec fn slot_of(self) -> Option<ImageSlot> {
        match self {
            FieldRole::Avatar => Some(ImageSlot::Avatar),
            FieldRole::PostImage => Some(ImageSlot::PostImage),
            _ => None,
        }
    }

    /// The slot that a part of this role fills, if it is an image.
    pub fn slot(self) -> (slot: Option<ImageSlot>)
        ensures
            slot == self.slot_of(),
    {
        match self {
            FieldRole::Avatar => Some(ImageSlot::Avatar),
            FieldRole::PostImage => Some(ImageSlot::PostImage),
            _ => None,
        }
    }
}

} // verus!
