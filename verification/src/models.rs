//! The records that travel through the pipeline.

use vstd::prelude::*;
use vstd::std_specs::convert::FromSpecImpl;
use crate::limits::{MAX_TEXT_SIZE, MAX_USERNAME_SIZE};

verus! {

/// A calendar date of the `chrono` crate. The pipeline never looks inside:
/// the server assigns the date of publication and it is carried through as is.
#[verifier::external_type_specification]
#[verifier::external_body]
pub struct ExNaiveDate(chrono::NaiveDate);

/// Length of a text in bytes, as it is encoded in memory and on the wire.
pub open spec fn byte_len(text: Seq<char>) -> nat {
    vstd::utf8::encode_utf8(text).len()
}

/// Mathematical content of the metadata part.
pub struct MetadataView {
    pub text: Seq<char>,
    pub username: Seq<char>,
    pub avatar: Option<Seq<char>>,
}

impl MetadataView {
    /// The length limits on text and author name.
    pub open spec fn within_limits(self) -> bool {
        &&& byte_len(self.text) <= MAX_TEXT_SIZE
        &&& byte_len(self.username) <= MAX_USERNAME_SIZE
    }
}

/// The metadata part of a request, once deserialized.
#[derive(Debug, Clone, PartialEq, Eq)]
pub struct CreateBlogPostDTO {
    /// At most `MAX_TEXT_SIZE` bytes.
    pub text: String,
    /// At most `MAX_USERNAME_SIZE` bytes.
    pub username: String,
    /// Reference to an avatar kept elsewhere, if the client named one.
    pub avatar: Option<String>,
}

impl View for CreateBlogPostDTO {
    type V = MetadataView;

    open spec fn view(&self) -> MetadataView {
        MetadataView {
            text: self.text@,
            username: self.username@,
            avatar: self.avatar.deep_view(),
        }
    }
}

impl CreateBlogPostDTO {
    /// The length limits on text and author name. Longer input is rejected,
    /// never truncated.
    pub open spec fn within_limits(&self) -> bool {
        self@.within_limits()
    }

    /// Tests the length limits.
    pub fn fits_limits(&self) -> (ok: bool)
        ensures
            ok == self.within_limits(),
    {
        self.text.as_str().as_bytes().len() <= MAX_TEXT_SIZE
            && self.username.as_str().as_bytes().len() <= MAX_USERNAME_SIZE
    }
}

/// A post as it is handed to the persistence layer.
#[derive(Debug, PartialEq, Eq)]
pub struct NewPost {
    pub text: String,
    pub username: String,
    pub date_of_publication: chrono::NaiveDate,
    /// Handle of the stored avatar.
    pub avatar: Option<String>,
    /// Handle of the stored post image.
    pub post_image: Option<String>,
}

impl NewPost {
    /// Assembles the record from the metadata, the date that the server
    /// assigned and the handles of the images that were stored.
    pub fn from_create_blog_post_dto(
        dto: CreateBlogPostDTO,
        date_of_publication: chrono::NaiveDate,
        avatar: Option<String>,
        post_image: Option<String>,
    ) -> (post: NewPost)
        ensures
            post.text == dto.text,
            post.username == dto.username,
            post.date_of_publication == date_of_publication,
            post.avatar == avatar,
            post.post_image == post_image,
    {
        NewPost { text: dto.text, username: dto.username, date_of_publication, avatar, post_image }
    }
}

/// A post as the persistence layer returns it.
#[derive(Debug, PartialEq, Eq)]
pub struct BlogPost {
    pub id: i32,
    /// Not longer than `MAX_TEXT_SIZE`.
    pub text: String,
    /// Not longer than `MAX_USERNAME_SIZE`.
    pub username: String,
    pub date_of_publication: chrono::NaiveDate,
    /// Handle of the stored avatar.
    pub avatar: Option<String>,
    /// Handle of the stored post image.
    pub post_image: Option<String>,
}

/// One page of the feed.
#[derive(Debug, PartialEq, Eq)]
pub struct FeedDTO {
    pub blogposts: Vec<BlogPost>,
}

impl FeedDTO {
    /// Wraps the posts of one page, in the order given.
    pub fn new(blogposts: Vec<BlogPost>) -> (feed: FeedDTO)
        ensures
            feed.blogposts == blogposts,
    {
        FeedDTO { blogposts }
    }
}

/// What an image is an image of.
#[derive(Debug, Clone, Copy, PartialEq, Eq, Structural)]
pub enum ImageType {
    /// Avatar of the author.
    Avatar,
    /// Image of the post itself.
    BlogPost,
}

impl ImageType {
    /// The number that stands for the type in storage.
    pub open spec fn code(self) -> i32 {
        match self {
            ImageType::Avatar => 0i32,
            ImageType::BlogPost => 1i32,
        }
    }

    /// The type that a stored number stands for: 0 is an avatar, every other
    /// number a post image.
    pub open spec fn of_code(value: i32) -> ImageType {
        if value == 0 {
            ImageType::Avatar
        } else {
            ImageType::BlogPost
        }
    }

    /// Reading back the number of a type gives the type.
    pub proof fn lemma_code_round_trip(t: ImageType)
        ensures
            ImageType::of_code(t.code()) == t,
    {
    }
}

impl From<i32> for ImageType {
    fn from(value: i32) -> (t: ImageType) {
        match value {
            0 => ImageType::Avatar,
            _ => ImageType::BlogPost,
        }
    }
}

impl FromSpecImpl<i32> for ImageType {
    open spec fn obeys_from_spec() -> bool {
        true
    }

    open spec fn from_spec(value: i32) -> ImageType {
        ImageType::of_code(value)
    }
}

impl From<ImageType> for i32 {
    fn from(t: ImageType) -> (value: i32) {
        match t {
            ImageType::Avatar => 0,
            ImageType::BlogPost => 1,
        }
    }
}

impl FromSpecImpl<ImageType> for i32 {
    open spec fn obeys_from_spec() -> bool {
        true
    }

    open spec fn from_spec(t: ImageType) -> i32 {
        t.code()
    }
}

/// A stored image as the persistence layer knows it.
#[derive(Debug, Clone, PartialEq, Eq)]
pub struct Image {
    pub id: i32,
    pub image_type: ImageType,
    /// Path of the image in the local storage.
    pub path: String,
    pub blogpost_id: i32,
}

} // verus!
