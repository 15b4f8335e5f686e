//! What holds of the coordinator on every request.

use vstd::prelude::*;
use crate::failure::{Failure, STATUS_BAD_REQUEST, STATUS_CREATED};
use crate::field::{role_of, FieldRole, ImageSlot};
use crate::ingest::{
    empty_state, fail, next, ActionView, DraftView, EventView, ImageReportView,
    MetadataReportView, ReplyView, StateView,
};
use crate::models::MetadataView;
use crate::sniff::Outcome;

verus! {

/// The files that the store has created for the request when it reports `e`.
/// A store that answers `TooLarge` has already removed its partial file.
pub open spec fn stored_by(e: EventView) -> Set<Seq<char>> {
    match e {
        EventView::Image { report: ImageReportView::Saved { handle, outcome }, .. } => if outcome
            == Outcome::TooLarge {
            Set::empty()
        } else {
            set![handle]
        },
        EventView::Image { report: ImageReportView::Failed { partial: Some(handle) }, .. } => set![
            handle,
        ],
        _ => Set::empty(),
    }
}

/// The files that carrying out `a` removes.
pub open spec fn removed_by(a: ActionView) -> Set<Seq<char>> {
    match a {
        ActionView::NextField { discard: Some(handle) } => set![handle],
        ActionView::Reply(reply) => reply.delete.to_set(),
        _ => Set::empty(),
    }
}

/// The request's files in the store after `e` was observed and `a` carried out.
pub open spec fn files_after(files: Set<Seq<char>>, e: EventView, a: ActionView) -> Set<
    Seq<char>,
> {
    (files + stored_by(e)) - removed_by(a)
}

/// The store hands out a handle once: what it reports is no file yet.
pub open spec fn fresh(files: Set<Seq<char>>, e: EventView) -> bool {
    forall|h: Seq<char>| stored_by(e).contains(h) ==> !files.contains(h)
}

/// The working set accounts for the request's files: it holds their handles
/// and no others, and no handle twice.
pub open spec fn accounts_for(s: StateView, files: Set<Seq<char>>) -> bool {
    &&& files == s.held().to_set()
    &&& s.avatar is Some ==> s.avatar != s.post_image
}

/// No orphaned files: as long as the request goes on, the working set
/// accounts for every file stored for it; a reply that reports a failure
/// leaves none of them; and the reply to a persisted record removes nothing.
pub proof fn lemma_no_orphaned_files(s: StateView, files: Set<Seq<char>>, e: EventView)
    requires
        accounts_for(s, files),
        fresh(files, e),
    ensures
        match next(s, e).1 {
            ActionView::Reply(reply) => if reply.failure is Some {
                files_after(files, e, next(s, e).1) == Set::<Seq<char>>::empty()
            } else {
                files_after(files, e, next(s, e).1) == files
            },
            _ => accounts_for(next(s, e).0, files_after(files, e, next(s, e).1)),
        },
{
    let (t, a) = next(s, e);
    let after = files_after(files, e, a);
    assert(s.held().to_set().contains(s.post_image.unwrap()) || s.post_image is None) by {
        if s.post_image is Some {
            assert(s.held()[0] == s.post_image.unwrap());
        }
    }
    assert(s.held().to_set().contains(s.avatar.unwrap()) || s.avatar is None) by {
        if s.avatar is Some {
            assert(s.held().last() == s.avatar.unwrap());
        }
    }
    match a {
        ActionView::Reply(reply) => {
            if reply.failure is Some {
                let extra = reply.delete.subrange(0, reply.delete.len() - s.held().len());
                assert(reply.delete =~= extra + s.held());
                assert forall|h: Seq<char>| files.contains(h) implies reply.delete.contains(h) by {
                    let i = choose|i: int| 0 <= i < s.held().len() && s.held()[i] == h;
                    assert(reply.delete[extra.len() + i] == h);
                }
                assert forall|h: Seq<char>| stored_by(e).contains(h) implies reply.delete.contains(
                    h,
                ) by {
                    assert(reply.delete[0] == h);
                }
                assert(after =~= Set::<Seq<char>>::empty());
            } else {
                assert(reply.delete.to_set() =~= Set::<Seq<char>>::empty());
                assert(after =~= files);
            }
        },
        ActionView::NextField { discard } => {
            assert(after =~= t.held().to_set()) by {
                assert forall|h: Seq<char>| after.contains(h) <==> t.held().to_set().contains(
                    h,
                ) by {
                    if t.post_image is Some {
                        assert(t.held()[0] == t.post_image.unwrap());
                    }
                    if t.avatar is Some {
                        assert(t.held().last() == t.avatar.unwrap());
                    }
                }
            }
        },
        _ => {
            assert(after =~= files);
            assert(t.held() == s.held());
        },
    }
}

/// A request that ends without metadata is answered with a client error,
/// and every image that was saved for it is removed before the response.
pub proof fn lemma_missing_metadata_is_refused(s: StateView)
    requires
        s.metadata is None,
    ensures
        next(s, EventView::StreamEnded) == fail(
            s,
            Failure::MissingMetadata,
            Seq::empty(),
            false,
        ),
        next(s, EventView::StreamEnded).1 matches ActionView::Reply(reply) && {
            &&& reply.status == STATUS_BAD_REQUEST
            &&& reply.failure == Some(Failure::MissingMetadata)
            &&& reply.delete == s.held()
            &&& !reply.drain
        },
        next(s, EventView::StreamEnded).0 == empty_state(),
{
    assert(Seq::<Seq<char>>::empty() + s.held() =~= s.held());
}

/// An image of the wrong format ends the request with a client error; the
/// file that the store began for it is removed with every file saved before,
/// and nothing is left to persist.
pub proof fn lemma_wrong_format_is_refused(s: StateView, slot: ImageSlot, handle: Seq<char>)
    ensures
        ({
            let e = EventView::Image {
                slot,
                report: ImageReportView::Saved { handle, outcome: Outcome::WrongFormat },
            };
            &&& next(s, e).0 == empty_state()
            &&& next(s, e).1 matches ActionView::Reply(reply) && {
                &&& reply.status == STATUS_BAD_REQUEST
                &&& reply.failure == Some(Failure::WrongFormat)
                &&& reply.delete == seq![handle] + s.held()
                &&& reply.delete.contains(handle)
                &&& reply.drain
            }
        }),
{
    assert((seq![handle] + s.held())[0] == handle);
}

/// An image over the ceiling ends the request with a client error about a
/// size limit, and every file saved before is removed. The store has removed
/// the oversized file itself.
pub proof fn lemma_oversized_image_is_refused(s: StateView, slot: ImageSlot, handle: Seq<char>)
    ensures
        ({
            let e = EventView::Image {
                slot,
                report: ImageReportView::Saved { handle, outcome: Outcome::TooLarge },
            };
            &&& next(s, e).0 == empty_state()
            &&& stored_by(e) == Set::<Seq<char>>::empty()
            &&& next(s, e).1 matches ActionView::Reply(reply) && {
                &&& reply.status == STATUS_BAD_REQUEST
                &&& reply.failure == Some(Failure::ImageTooLarge)
                &&& Failure::ImageTooLarge.is_size_limit()
                &&& reply.delete == s.held()
                &&& reply.drain
            }
        }),
{
    assert(Seq::<Seq<char>>::empty() + s.held() =~= s.held());
}

/// Every reply that reports a failure carries the status of that failure,
/// names every file that the working set held, and leaves an empty working
/// set: a second cleanup finds nothing.
pub proof fn lemma_failure_drops_everything(s: StateView, e: EventView)
    ensures
        next(s, e).1 matches ActionView::Reply(reply) ==> {
            &&& next(s, e).0 == empty_state()
            &&& empty_state().held() == Seq::<Seq<char>>::empty()
            &&& match reply.failure {
                Some(failure) => {
                    &&& reply.status == failure.status_of()
                    &&& forall|i: int|
                        0 <= i < s.held().len() ==> reply.delete.contains(#[trigger] s.held()[i])
                },
                None => reply.status == STATUS_CREATED && reply.delete.len() == 0,
            }
        },
{
    if let ActionView::Reply(reply) = next(s, e).1 {
        if reply.failure is Some {
            let extra = reply.delete.subrange(0, reply.delete.len() - s.held().len());
            assert(reply.delete =~= extra + s.held());
            assert forall|i: int| 0 <= i < s.held().len() implies reply.delete.contains(
                #[trigger] s.held()[i],
            ) by {
                assert(reply.delete[extra.len() + i] == s.held()[i]);
            }
        }
    }
}

/// Metadata over its limits is never held and never handed on to be
/// persisted: it is refused, not truncated.
pub proof fn lemma_limits_are_kept(s: StateView, e: EventView)
    requires
        s.respects_limits(),
    ensures
        next(s, e).0.respects_limits(),
        next(s, e).1 matches ActionView::Persist(draft) ==> draft.metadata.within_limits(),
        e matches EventView::Metadata(MetadataReportView::Parsed(m)) ==> m.within_limits() || (next(
            s,
            e,
        ).1 matches ActionView::Reply(reply) && reply.failure == Some(Failure::FieldTooLong)),
{
}

/// The working set after `events` have been taken in, one after the other.
pub open spec fn run(s: StateView, events: Seq<EventView>) -> StateView
    decreases events.len(),
{
    if events.len() == 0 {
        s
    } else {
        next(run(s, events.drop_last()), events.last()).0
    }
}

/// Events of a request in which nothing goes wrong: a part with a known
/// name, metadata within its limits, an accepted image.
pub open spec fn takes_in(e: EventView) -> bool {
    match e {
        EventView::FieldArrived { name: Some(name) } => role_of(name) != FieldRole::Unknown,
        EventView::Metadata(MetadataReportView::Parsed(m)) => m.within_limits(),
        EventView::Image {
            report: ImageReportView::Saved { outcome: Outcome::Accepted, .. },
            ..
        } => true,
        _ => false,
    }
}

/// The metadata that arrived last.
pub open spec fn latest_metadata(events: Seq<EventView>) -> Option<MetadataView>
    decreases events.len(),
{
    if events.len() == 0 {
        None
    } else {
        match events.last() {
            EventView::Metadata(MetadataReportView::Parsed(m)) => Some(m),
            _ => latest_metadata(events.drop_last()),
        }
    }
}

/// The handle of the image that was accepted last for `slot`.
pub open spec fn latest_handle(events: Seq<EventView>, slot: ImageSlot) -> Option<Seq<char>>
    decreases events.len(),
{
    if events.len() == 0 {
        None
    } else {
        match events.last() {
            EventView::Image {
                slot: filled,
                report: ImageReportView::Saved { handle, outcome: Outcome::Accepted },
            } if filled == slot => Some(handle),
            _ => latest_handle(events.drop_last(), slot),
        }
    }
}

/// The draft of a request in which nothing went wrong.
pub open spec fn draft_of(events: Seq<EventView>) -> DraftView
    recommends
        latest_metadata(events) is Some,
{
    DraftView {
        metadata: latest_metadata(events).unwrap(),
        avatar: latest_handle(events, ImageSlot::Avatar),
        post_image: latest_handle(events, ImageSlot::PostImage),
    }
}

/// Taking in parts in which nothing goes wrong never ends the request and
/// leaves in the working set what arrived last of each kind.
pub proof fn lemma_intake(events: Seq<EventView>)
    requires
        forall|i: int| 0 <= i < events.len() ==> takes_in(#[trigger] events[i]),
    ensures
        run(empty_state(), events) == (StateView {
            metadata: latest_metadata(events),
            avatar: latest_handle(events, ImageSlot::Avatar),
            post_image: latest_handle(events, ImageSlot::PostImage),
        }),
        forall|i: int|
            0 <= i < events.len() ==> {
                let a = #[trigger] next(run(empty_state(), events.take(i)), events[i]).1;
                !(a is Reply) && !(a is Persist)
            },
    decreases events.len(),
{
    if events.len() > 0 {
        let init = events.drop_last();
        lemma_intake(init);
        assert(takes_in(events.last()));
        assert forall|i: int| 0 <= i < events.len() implies {
            let a = #[trigger] next(run(empty_state(), events.take(i)), events[i]).1;
            !(a is Reply) && !(a is Persist)
        } by {
            assert(takes_in(events[i]));
            if i < init.len() {
                assert(events.take(i) =~= init.take(i));
                assert(events[i] == init[i]);
            } else {
                assert(events.take(i) =~= init);
            }
        }
    }
}

/// A valid request, metadata and any accepted images in any order, creates
/// exactly one record: no part ends the request or persists anything, the end
/// of the stream hands over one draft that holds the metadata and the handles
/// of the images as they were stored, and the answer to the persisted record
/// is 201 and removes no file.
pub proof fn lemma_valid_request_is_persisted(events: Seq<EventView>)
    requires
        forall|i: int| 0 <= i < events.len() ==> takes_in(#[trigger] events[i]),
        latest_metadata(events) is Some,
    ensures
        forall|i: int|
            0 <= i < events.len() ==> {
                let a = #[trigger] next(run(empty_state(), events.take(i)), events[i]).1;
                !(a is Reply) && !(a is Persist)
            },
        next(run(empty_state(), events), EventView::StreamEnded).1 == ActionView::Persist(
            draft_of(events),
        ),
        next(
            next(run(empty_state(), events), EventView::StreamEnded).0,
            EventView::Persisted { ok: true },
        ).1 == ActionView::Reply(
            ReplyView {
                status: STATUS_CREATED,
                failure: None,
                delete: Seq::empty(),
                drain: false,
            },
        ),
{
    lemma_intake(events);
}

/// Nothing is deduplicated by content: the record of a valid request refers
/// to the files under the very handles that the store reported, so two
/// requests whose images were stored under different handles give records
/// that differ in them, however alike the requests are.
pub proof fn lemma_records_keep_their_handles(
    first: Seq<EventView>,
    second: Seq<EventView>,
    slot: ImageSlot,
)
    requires
        forall|i: int| 0 <= i < first.len() ==> takes_in(#[trigger] first[i]),
        forall|i: int| 0 <= i < second.len() ==> takes_in(#[trigger] second[i]),
        latest_metadata(first) is Some,
        latest_metadata(second) is Some,
        latest_handle(first, slot) != latest_handle(second, slot),
    ensures
        next(run(empty_state(), first), EventView::StreamEnded).1 != next(
            run(empty_state(), second),
            EventView::StreamEnded,
        ).1,
{
    lemma_valid_request_is_persisted(first);
    lemma_valid_request_is_persisted(second);
}

} // verus!
