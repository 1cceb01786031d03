//! Moving an issue across the board. The move is a compare-and-set on the
//! stored status: it only applies while the issue still has the status it was
//! read with, and every applied move is recorded as an event.

use vstd::prelude::*;
use crate::error::{Error, ErrorView, Resource};
use crate::ids::{id_to_text, is_random_uuid, new_id, uuid_text};
use crate::records::{opt_text, Issue, IssueEvent, IssueEventView, IssueView, UpdateIssueStatus};
use crate::status::{status_text, IssueStatus};
use crate::time::{spec_rfc3339, Timestamp};

verus! {

/// A requested move of one issue, stamped with the time it is made.
#[derive(Clone, Debug)]
pub struct StatusChange {
    pub issue_id: u128,
    pub from: IssueStatus,
    pub to: IssueStatus,
    pub note: Option<String>,
    pub at: Timestamp,
}

pub struct StatusChangeView {
    pub issue_id: u128,
    pub from: IssueStatus,
    pub to: IssueStatus,
    pub note: Option<Seq<char>>,
    pub at: (i64, u32),
}

impl View for StatusChange {
    type V = StatusChangeView;

    open spec fn view(&self) -> StatusChangeView {
        StatusChangeView { issue_id: self.issue_id, from: self.from, to: self.to, note: opt_text(self.note), at: self.at@ }
    }
}

/// The parameters of the conditional update: set `to_status` and `updated_at`
/// on the issue `issue_id` provided its status is still `from_status`.
pub struct StatusUpdateRow {
    pub issue_id: String,
    pub from_status: String,
    pub to_status: String,
    pub updated_at: String,
}

/// The move a client asks for, from the status the issue has now.
pub open spec fn spec_request(current: IssueView, to: IssueStatus, note: Option<Seq<char>>, at: (i64, u32)) -> StatusChangeView {
    StatusChangeView { issue_id: current.id, from: current.status, to, note, at }
}

/// The event that records an applied move, under identifier `id`.
pub open spec fn spec_event(change: StatusChangeView, id: u128) -> IssueEventView {
    IssueEventView {
        id,
        issue_id: change.issue_id,
        from_status: change.from,
        to_status: change.to,
        note: change.note,
        timestamp: change.at,
    }
}

/// Law: the event recorded for a client's move goes from the status the issue
/// had when it was read to the status the client asked for, carries the
/// client's note, and is stamped with the time the issue was updated.
pub proof fn lemma_event_records_the_move(
    current: IssueView,
    to: IssueStatus,
    note: Option<Seq<char>>,
    at: (i64, u32),
    id: u128,
)
    ensures
        spec_event(spec_request(current, to, note, at), id).issue_id == current.id,
        spec_event(spec_request(current, to, note, at), id).from_status == current.status,
        spec_event(spec_request(current, to, note, at), id).to_status == to,
        spec_event(spec_request(current, to, note, at), id).note == note,
        spec_event(spec_request(current, to, note, at), id).timestamp == spec_request(current, to, note, at).at,
{
}

/// The issue after a move applied: the status it was moved to, last updated
/// when the move was made (what the conditional update writes).
pub open spec fn spec_apply(issue: IssueView, change: StatusChangeView) -> IssueView {
    IssueView { status: change.to, updated_at: change.at, ..issue }
}

/// One client move as it is made: the status asked for, the note, the time it
/// is made, and the identifier its event gets.
pub type MoveView = (IssueStatus, Option<Seq<char>>, (i64, u32), u128);

/// The issue and its events after a sequence of moves, each made from the
/// issue as it stands after the ones before and applied.
pub open spec fn replay(issue: IssueView, moves: Seq<MoveView>) -> (IssueView, Seq<IssueEventView>)
    decreases moves.len(),
{
    if moves.len() == 0 {
        (issue, Seq::empty())
    } else {
        let (current, events) = replay(issue, moves.drop_last());
        let m = moves.last();
        let change = spec_request(current, m.0, m.1, m.2);
        (spec_apply(current, change), events.push(spec_event(change, m.3)))
    }
}

/// An event history that starts at `start`, where each event starts where the
/// one before ended, and that ends at `current` (or, with no event, the issue
/// is still at `start`).
pub open spec fn history_chains(start: IssueStatus, events: Seq<IssueEventView>, current: IssueStatus) -> bool {
    if events.len() == 0 {
        current == start
    } else {
        &&& events[0].from_status == start
        &&& forall|k: int| 0 <= k < events.len() - 1 ==> #[trigger] events[k].to_status == events[k + 1].from_status
        &&& events.last().to_status == current
    }
}

/// Law: over any sequence of applied moves, the events recorded form a chain
/// from the status the issue started at (the backlog, for an issue made by
/// `Issue::create`) to the status it has now, all about that issue, one per
/// move, in order.
pub proof fn lemma_event_history_chains(issue: IssueView, moves: Seq<MoveView>)
    ensures
        history_chains(issue.status, replay(issue, moves).1, replay(issue, moves).0.status),
        replay(issue, moves).1.len() == moves.len(),
        replay(issue, moves).0.id == issue.id,
        forall|k: int| 0 <= k < moves.len() ==> (#[trigger] replay(issue, moves).1[k]).issue_id == issue.id,
        forall|k: int| 0 <= k < moves.len() ==> (#[trigger] replay(issue, moves).1[k]).to_status == moves[k].0,
    decreases moves.len(),
{
    if moves.len() > 0 {
        let init = moves.drop_last();
        lemma_event_history_chains(issue, init);
        let (current, events) = replay(issue, init);
        let all = replay(issue, moves).1;
        assert(all == events.push(spec_event(spec_request(current, moves.last().0, moves.last().1, moves.last().2), moves.last().3)));
        assert forall|k: int| 0 <= k < moves.len() implies (#[trigger] all[k]).issue_id == issue.id && all[k].to_status == moves[k].0 by {
            if k < init.len() {
                assert(all[k] == events[k]);
                assert(init[k] == moves[k]);
            }
        }
        if events.len() > 0 {
            assert forall|k: int| 0 <= k < all.len() - 1 implies #[trigger] all[k].to_status == all[k + 1].from_status by {
                if k < events.len() - 1 {
                    assert(all[k] == events[k] && all[k + 1] == events[k + 1]);
                } else {
                    assert(all[k] == events.last());
                }
            }
            assert(all[0] == events[0]);
        }
    }
}

impl StatusChange {
    /// The move of `current` to the status the client asks for, from the
    /// status `current` was read with, stamped now.
    pub fn request(current: &Issue, input: UpdateIssueStatus) -> (c: StatusChange)
        ensures
            c@ == spec_request(current@, input.status, opt_text(input.note), c.at@),
            c.at@.0 >= 0 && c.at@.1 < 1_000_000_000,
    {
        StatusChange { issue_id: current.id, from: current.status, to: input.status, note: input.note, at: Timestamp::now() }
    }

    /// The parameters of the conditional update that applies the move.
    pub fn update_row(&self) -> (r: StatusUpdateRow)
        ensures
            r.issue_id@ == uuid_text(self.issue_id),
            r.from_status@ == status_text(self.from),
            r.to_status@ == status_text(self.to),
            r.updated_at@ == spec_rfc3339(self.at@.0, self.at@.1),
    {
        StatusUpdateRow {
            issue_id: id_to_text(self.issue_id),
            from_status: self.from.to_text(),
            to_status: self.to.to_text(),
            updated_at: self.at.to_text(),
        }
    }

    /// What follows from the number of rows the conditional update changed:
    /// none means that no issue `issue_id` has the status `from` any more (or
    /// never existed), which is answered as `NotFound`; otherwise the move
    /// applied and this is the event to record, under a fresh identifier.
    pub fn settle(self, rows_affected: u64) -> (r: Result<IssueEvent, Error>)
        ensures
            rows_affected == 0 ==> (r matches Err(e) && e@ == (ErrorView::NotFound { resource: Resource::Issue, id: self.issue_id })),
            rows_affected != 0 ==> (r matches Ok(ev) && ev@ == spec_event(self@, ev.id) && is_random_uuid(ev.id)),
    {
        if rows_affected == 0 {
            Err(Error::NotFound { resource: Resource::Issue, id: self.issue_id })
        } else {
            Ok(IssueEvent {
                id: new_id(),
                issue_id: self.issue_id,
                from_status: self.from,
                to_status: self.to,
                note: self.note,
                timestamp: self.at,
            })
        }
    }
}

} // verus!
