//! The ingestion coordinator: one request, part by part.
//!
//! The coordinator performs no I/O. The server tells it what happened (an
//! `Event`) and is told what to do next (an `Action`). Parts may arrive in any
//! order, so nothing is decided about the request as a whole before the stream
//! has ended; whatever fails first ends the request, and the answer then names
//! every stored file that has to go.

use vstd::prelude::*;
use crate::failure::{Failure, STATUS_CREATED};
use crate::field::{classify_field, role_of, FieldRole, ImageSlot};
use crate::models::{CreateBlogPostDTO, MetadataView};
use crate::sniff::Outcome;

verus! {

/// How reading the metadata part ended.
#[derive(Debug)]
pub enum MetadataReport {
    /// The body could not be read.
    Unreadable,
    /// The body went over `MAX_METADATA_SIZE`; it was not parsed.
    Oversized,
    /// The body does not deserialize.
    Unparsable,
    /// The deserialized payload.
    Parsed(CreateBlogPostDTO),
}

/// How storing an image part ended.
#[derive(Debug)]
pub enum ImageReport {
    /// The store answered for the file behind `handle`.
    Saved { handle: String, outcome: Outcome },
    /// The store failed; `partial` is the file that it had begun, if any.
    Failed { partial: Option<String> },
}

/// What the server observed.
#[derive(Debug)]
pub enum Event {
    /// The next part has begun; `name` is its declared name, if it has one.
    FieldArrived { name: Option<String> },
    /// The request stream could not be read.
    StreamFailed,
    /// The metadata part has been read.
    Metadata(MetadataReport),
    /// An image part has been handed to the store.
    Image { slot: ImageSlot, report: ImageReport },
    /// The request stream has ended.
    StreamEnded,
    /// The persistence layer has answered.
    Persisted { ok: bool },
}

/// Everything needed to assemble the record.
#[derive(Debug)]
pub struct Draft {
    pub metadata: CreateBlogPostDTO,
    /// Handle of the stored avatar.
    pub avatar: Option<String>,
    /// Handle of the stored post image.
    pub post_image: Option<String>,
}

/// The end of a request.
#[derive(Debug)]
pub struct Reply {
    /// Status code of the response.
    pub status: u16,
    /// What went wrong, if anything.
    pub failure: Option<Failure>,
    /// Handles of the stored files to remove before responding, in this order.
    pub delete: Vec<String>,
    /// Whether unread request data is left and has to be drained.
    pub drain: bool,
}

/// What the server has to do next.
#[derive(Debug)]
pub enum Action {
    /// Read the body of the current part and report it as `Event::Metadata`.
    ReadMetadata,
    /// Stream the current part into the store and report it as `Event::Image`.
    SaveImage(ImageSlot),
    /// Remove the superseded file `discard`, if any, and await the next part.
    NextField { discard: Option<String> },
    /// Hand the draft to the persistence layer and report `Event::Persisted`.
    Persist(Draft),
    /// Remove the files named, drain if asked to, and respond.
    Reply(Reply),
}

pub enum MetadataReportView {
    Unreadable,
    Oversized,
    Unparsable,
    Parsed(MetadataView),
}

pub enum ImageReportView {
    Saved { handle: Seq<char>, outcome: Outcome },
    Failed { partial: Option<Seq<char>> },
}

pub enum EventView {
    FieldArrived { name: Option<Seq<char>> },
    StreamFailed,
    Metadata(MetadataReportView),
    Image { slot: ImageSlot, report: ImageReportView },
    StreamEnded,
    Persisted { ok: bool },
}

pub struct DraftView {
    pub metadata: MetadataView,
    pub avatar: Option<Seq<char>>,
    pub post_image: Option<Seq<char>>,
}

pub struct ReplyView {
    pub status: u16,
    pub failure: Option<Failure>,
    pub delete: Seq<Seq<char>>,
    pub drain: bool,
}

pub enum ActionView {
    ReadMetadata,
    SaveImage(ImageSlot),
    NextField { discard: Option<Seq<char>> },
    Persist(DraftView),
    Reply(ReplyView),
}

impl View for MetadataReport {
    type V = MetadataReportView;

    open spec fn view(&self) -> MetadataReportView {
        match self {
            MetadataReport::Unreadable => MetadataReportView::Unreadable,
            MetadataReport::Oversized => MetadataReportView::Oversized,
            MetadataReport::Unparsable => MetadataReportView::Unparsable,
            MetadataReport::Parsed(dto) => MetadataReportView::Parsed(dto@),
        }
    }
}

impl View for ImageReport {
    type V = ImageReportView;

    open spec fn view(&self) -> ImageReportView {
        match self {
            ImageReport::Saved { handle, outcome } => ImageReportView::Saved {
                handle: handle@,
                outcome: *outcome,
            },
            ImageReport::Failed { partial } => ImageReportView::Failed {
                partial: partial.deep_view(),
            },
        }
    }
}

impl View for Event {
    type V = EventView;

    open spec fn view(&self) -> EventView {
        match self {
            Event::FieldArrived { name } => EventView::FieldArrived { name: name.deep_view() },
            Event::StreamFailed => EventView::StreamFailed,
            Event::Metadata(report) => EventView::Metadata(report@),
            Event::Image { slot, report } => EventView::Image { slot: *slot, report: report@ },
            Event::StreamEnded => EventView::StreamEnded,
            Event::Persisted { ok } => EventView::Persisted { ok: *ok },
        }
    }
}

impl View for Draft {
    type V = DraftView;

    open spec fn view(&self) -> DraftView {
        DraftView {
            metadata: self.metadata@,
            avatar: self.avatar.deep_view(),
            post_image: self.post_image.deep_view(),
        }
    }
}

impl View for Reply {
    type V = ReplyView;

    open spec fn view(&self) -> ReplyView {
        ReplyView {
            status: self.status,
            failure: self.failure,
            delete: self.delete.deep_view(),
            drain: self.drain,
        }
    }
}

impl View for Action {
    type V = ActionView;

    open spec fn view(&self) -> ActionView {
        match self {
            Action::ReadMetadata => ActionView::ReadMetadata,
            Action::SaveImage(slot) => ActionView::SaveImage(*slot),
            Action::NextField { discard } => ActionView::NextField {
                discard: discard.deep_view(),
            },
            Action::Persist(draft) => ActionView::Persist(draft@),
            Action::Reply(reply) => ActionView::Reply(reply@),
        }
    }
}

/// Mathematical content of the coordinator's working set.
pub struct StateView {
    pub metadata: Option<MetadataView>,
    pub avatar: Option<Seq<char>>,
    pub post_image: Option<Seq<char>>,
}

/// The working set of a request that has seen no part yet.
pub open spec fn empty_state() -> StateView {
    StateView { metadata: None, avatar: None, post_image: None }
}

/// The handles that a cleanup removes: the post image first, then the avatar.
pub open spec fn cleanup_of(image: Option<Seq<char>>, avatar: Option<Seq<char>>) -> Seq<
    Seq<char>,
> {
    let first = match image {
        Some(h) => seq![h],
        None => Seq::empty(),
    };
    match avatar {
        Some(h) => first.push(h),
        None => first,
    }
}

impl StateView {
    /// Metadata is held only if it is within its limits.
    pub open spec fn respects_limits(self) -> bool {
        self.metadata matches Some(m) ==> m.within_limits()
    }

    /// The handles of the files stored so far for this request.
    pub open spec fn held(self) -> Seq<Seq<char>> {
        cleanup_of(self.post_image, self.avatar)
    }

    /// The handle in `slot`.
    pub open spec fn handle_in(self, slot: ImageSlot) -> Option<Seq<char>> {
        match slot {
            ImageSlot::Avatar => self.avatar,
            ImageSlot::PostImage => self.post_image,
        }
    }

    /// This state with `handle` in `slot`.
    pub open spec fn with_handle(self, slot: ImageSlot, handle: Seq<char>) -> StateView {
        match slot {
            ImageSlot::Avatar => StateView { avatar: Some(handle), ..self },
            ImageSlot::PostImage => StateView { post_image: Some(handle), ..self },
        }
    }
}

/// The end of a request that failed: the whole working set is dropped, and
/// the reply removes every file that it held, after the files in `extra`.
pub open spec fn fail(s: StateView, failure: Failure, extra: Seq<Seq<char>>, drain: bool) -> (
    StateView,
    ActionView,
) {
    (
        empty_state(),
        ActionView::Reply(
            ReplyView {
                status: failure.status_of(),
                failure: Some(failure),
                delete: extra + s.held(),
                drain,
            },
        ),
    )
}

/// The coordinator as a function from state and event to next state and
/// action.
pub open spec fn next(s: StateView, e: EventView) -> (StateView, ActionView) {
    match e {
        EventView::FieldArrived { name: None } => fail(s, Failure::Malformed, Seq::empty(), true),
        EventView::FieldArrived { name: Some(name) } => match role_of(name) {
            FieldRole::Metadata => (s, ActionView::ReadMetadata),
            FieldRole::Avatar => (s, ActionView::SaveImage(ImageSlot::Avatar)),
            FieldRole::PostImage => (s, ActionView::SaveImage(ImageSlot::PostImage)),
            FieldRole::Unknown => fail(s, Failure::UnknownField, Seq::empty(), true),
        },
        EventView::StreamFailed => fail(s, Failure::Malformed, Seq::empty(), true),
        EventView::Metadata(MetadataReportView::Unreadable) => fail(
            s,
            Failure::ReadFailed,
            Seq::empty(),
            true,
        ),
        EventView::Metadata(MetadataReportView::Oversized) => fail(
            s,
            Failure::MetadataTooLarge,
            Seq::empty(),
            true,
        ),
        EventView::Metadata(MetadataReportView::Unparsable) => fail(
            s,
            Failure::Malformed,
            Seq::empty(),
            true,
        ),
        EventView::Metadata(MetadataReportView::Parsed(m)) => if m.within_limits() {
            (StateView { metadata: Some(m), ..s }, ActionView::NextField { discard: None })
        } else {
            fail(s, Failure::FieldTooLong, Seq::empty(), true)
        },
        EventView::Image { slot, report: ImageReportView::Saved { handle, outcome } } => match outcome {
            Outcome::Accepted => (
                s.with_handle(slot, handle),
                ActionView::NextField {
                    discard: if s.handle_in(slot) == Some(handle) {
                        None
                    } else {
                        s.handle_in(slot)
                    },
                },
            ),
            Outcome::WrongFormat => fail(s, Failure::WrongFormat, seq![handle], true),
            Outcome::TooLarge => fail(s, Failure::ImageTooLarge, Seq::empty(), true),
        },
        EventView::Image { slot, report: ImageReportView::Failed { partial } } => fail(
            s,
            Failure::StorageFailed,
            cleanup_of(partial, None),
            true,
        ),
        EventView::StreamEnded => match s.metadata {
            None => fail(s, Failure::MissingMetadata, Seq::empty(), false),
            Some(m) => (
                StateView { metadata: None, ..s },
                ActionView::Persist(
                    DraftView { metadata: m, avatar: s.avatar, post_image: s.post_image },
                ),
            ),
        },
        EventView::Persisted { ok } => if ok {
            (
                empty_state(),
                ActionView::Reply(
                    ReplyView {
                        status: STATUS_CREATED,
                        failure: None,
                        delete: Seq::empty(),
                        drain: false,
                    },
                ),
            )
        } else {
            fail(s, Failure::PersistenceFailed, Seq::empty(), false)
        },
    }
}

/// Names the stored files to remove when a request is given up: the post
/// image first, then the avatar, each only if it was saved.
pub fn clear_files(image: Option<String>, avatar: Option<String>) -> (delete: Vec<String>)
    ensures
        delete.deep_view() == cleanup_of(image.deep_view(), avatar.deep_view()),
{
    let mut delete: Vec<String> = Vec::new();
    if let Some(handle) = image {
        delete.push(handle);
    }
    if let Some(handle) = avatar {
        delete.push(handle);
    }
    assert(delete.deep_view() =~= cleanup_of(image.deep_view(), avatar.deep_view()));
    delete
}

/// The coordinator's working set: what has been taken in of one request.
#[derive(Debug)]
pub struct IngestionState {
    metadata: Option<CreateBlogPostDTO>,
    avatar: Option<String>,
    post_image: Option<String>,
}

impl View for IngestionState {
    type V = StateView;

    closed spec fn view(&self) -> StateView {
        StateView {
            metadata: match self.metadata {
                Some(dto) => Some(dto@),
                None => None,
            },
            avatar: self.avatar.deep_view(),
            post_image: self.post_image.deep_view(),
        }
    }
}

impl IngestionState {
    /// Metadata is held only if it is within its limits.
    #[verifier::type_invariant]
    spec fn holds_valid_metadata(&self) -> bool {
        self.metadata matches Some(dto) ==> dto.within_limits()
    }

    /// The working set of a request that has seen no part yet.
    pub fn new() -> (state: IngestionState)
        ensures
            state@ == empty_state(),
    {
        IngestionState { metadata: None, avatar: None, post_image: None }
    }

    /// Whether metadata has been taken in.
    pub fn has_metadata(&self) -> (b: bool)
        ensures
            b == self@.metadata.is_some(),
            self@.respects_limits(),
    {
        proof {
            use_type_invariant(self);
        }
        self.metadata.is_some()
    }

    /// The handle of the stored file in `slot`, if one was saved.
    pub fn handle(&self, slot: ImageSlot) -> (h: Option<&String>)
        ensures
            h.deep_view() == self@.handle_in(slot),
    {
        match slot {
            ImageSlot::Avatar => self.avatar.as_ref(),
            ImageSlot::PostImage => self.post_image.as_ref(),
        }
    }

    /// Gives up the request: forgets everything and names the files to remove.
    /// Safe to call at any time, and a second call names nothing.
    pub fn rollback(&mut self) -> (delete: Vec<String>)
        ensures
            delete.deep_view() == old(self)@.held(),
            final(self)@ == empty_state(),
    {
        self.metadata = None;
        let mut image: Option<String> = None;
        let mut avatar: Option<String> = None;
        std::mem::swap(&mut self.post_image, &mut image);
        std::mem::swap(&mut self.avatar, &mut avatar);
        clear_files(image, avatar)
    }

    /// Ends the request with `failure`.
    fn abort(&mut self, failure: Failure, extra: Option<String>, drain: bool) -> (action: Action)
        ensures
            (final(self)@, action@) == fail(
                old(self)@,
                failure,
                cleanup_of(extra.deep_view(), None),
                drain,
            ),
    {
        let mut delete: Vec<String> = Vec::new();
        if let Some(handle) = extra {
            delete.push(handle);
        }
        let ghost first = delete.deep_view();
        assert(first =~= cleanup_of(extra.deep_view(), None));
        let mut held = self.rollback();
        let ghost rest = held.deep_view();
        delete.append(&mut held);
        assert(delete.deep_view() =~= first + rest);
        Action::Reply(Reply { status: failure.status(), failure: Some(failure), delete, drain })
    }

    /// Takes in one event and says what to do next.
    pub fn step(&mut self, event: Event) -> (action: Action)
        ensures
            (final(self)@, action@) == next(old(self)@, event@),
            action matches Action::Persist(draft) ==> draft.metadata.within_limits(),
    {
        proof {
            use_type_invariant(&*self);
        }
        match event {
            Event::FieldArrived { name: None } => self.abort(Failure::Malformed, None, true),
            Event::FieldArrived { name: Some(name) } => match classify_field(name.as_str()) {
                FieldRole::Metadata => Action::ReadMetadata,
                FieldRole::Avatar => Action::SaveImage(ImageSlot::Avatar),
                FieldRole::PostImage => Action::SaveImage(ImageSlot::PostImage),
                FieldRole::Unknown => self.abort(Failure::UnknownField, None, true),
            },
            Event::StreamFailed => self.abort(Failure::Malformed, None, true),
            Event::Metadata(MetadataReport::Unreadable) => self.abort(
                Failure::ReadFailed,
                None,
                true,
            ),
            Event::Metadata(MetadataReport::Oversized) => self.abort(
                Failure::MetadataTooLarge,
                None,
                true,
            ),
            Event::Metadata(MetadataReport::Unparsable) => self.abort(
                Failure::Malformed,
                None,
                true,
            ),
            Event::Metadata(MetadataReport::Parsed(dto)) => {
                if dto.fits_limits() {
                    self.metadata = Some(dto);
                    Action::NextField { discard: None }
                } else {
                    self.abort(Failure::FieldTooLong, None, true)
                }
            },
            Event::Image { slot, report: ImageReport::Saved { handle, outcome } } => match outcome {
                Outcome::Accepted => {
                    let same = match self.handle(slot) {
                        Some(previous) => *previous == handle,
                        None => false,
                    };
                    let mut previous: Option<String> = Some(handle);
                    match slot {
                        ImageSlot::Avatar => std::mem::swap(&mut self.avatar, &mut previous),
                        ImageSlot::PostImage => std::mem::swap(&mut self.post_image, &mut previous),
                    }
                    let discard = if same {
                        None
                    } else {
                        previous
                    };
                    Action::NextField { discard }
                },
                Outcome::WrongFormat => self.abort(Failure::WrongFormat, Some(handle), true),
                Outcome::TooLarge => self.abort(Failure::ImageTooLarge, None, true),
            },
            Event::Image { slot, report: ImageReport::Failed { partial } } => self.abort(
                Failure::StorageFailed,
                partial,
                true,
            ),
            Event::StreamEnded => {
                let mut held: Option<CreateBlogPostDTO> = None;
                std::mem::swap(&mut self.metadata, &mut held);
                match held {
                    None => self.abort(Failure::MissingMetadata, None, false),
                    Some(metadata) => {
                        let avatar = match &self.avatar {
                            Some(handle) => Some(handle.clone()),
                            None => None,
                        };
                        let post_image = match &self.post_image {
                            Some(handle) => Some(handle.clone()),
                            None => None,
                        };
                        Action::Persist(Draft { metadata, avatar, post_image })
                    },
                }
            },
            Event::Persisted { ok } => if ok {
                self.metadata = None;
                self.avatar = None;
                self.post_image = None;
                let delete: Vec<String> = Vec::new();
                assert(delete.deep_view() =~= Seq::<Seq<char>>::empty());
                Action::Reply(Reply { status: STATUS_CREATED, failure: None, delete, drain: false })
            } else {
                self.abort(Failure::PersistenceFailed, None, false)
            },
        }
    }
}

} // verus!
