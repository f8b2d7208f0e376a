//! The status of a blob, and which of the statuses that storage nodes
//! report is taken for the blob's.
//!
//! A node may know more than the chain does: it may hold a blob to be
//! invalid before that is posted on chain. Such a report names no event
//! that the chain has, and is passed over: the status taken is the most
//! advanced one that the chain bears out.

use vstd::prelude::*;
use crate::command::opt_text;
use crate::text::{decimal, push_decimal};

verus! {

/// The event on chain that a status rests on.
#[derive(Clone, Debug, PartialEq, Eq)]
pub struct EventId {
    /// The digest of the transaction, as the chain writes it.
    pub tx_digest: String,
    /// The place of the event among those of the transaction.
    pub event_seq: u64,
}

/// How far a blob that the system knows has come.
#[derive(Clone, Copy, Debug, PartialEq, Eq, Structural)]
pub enum BlobCertificationStatus {
    Registered,
    Certified,
    Invalid,
}

/// The status of a blob.
#[derive(Clone, Debug, PartialEq, Eq)]
pub enum BlobStatus {
    /// The system does not know the blob.
    Nonexistent,
    /// The system knows the blob.
    Existent { end_epoch: u64, status: BlobCertificationStatus, status_event: EventId },
}

/// What a storage node says of a blob, and whether the chain bears it out.
#[derive(Clone, Debug, PartialEq, Eq)]
pub struct StatusReport {
    pub status: BlobStatus,
    /// Whether the event that the status names was found on chain.
    pub anchored: bool,
}

/// The content of an [`EventId`].
pub struct EventIdView {
    pub tx_digest: Seq<char>,
    pub event_seq: u64,
}

/// The content of a [`BlobStatus`].
pub enum BlobStatusView {
    Nonexistent,
    Existent { end_epoch: u64, status: BlobCertificationStatus, status_event: EventIdView },
}

/// The content of a [`StatusReport`].
pub struct StatusReportView {
    pub status: BlobStatusView,
    pub anchored: bool,
}

impl View for EventId {
    type V = EventIdView;

    open spec fn view(&self) -> EventIdView {
        EventIdView { tx_digest: self.tx_digest@, event_seq: self.event_seq }
    }
}

impl View for BlobStatus {
    type V = BlobStatusView;

    open spec fn view(&self) -> BlobStatusView {
        match self {
            BlobStatus::Nonexistent => BlobStatusView::Nonexistent,
            BlobStatus::Existent { end_epoch, status, status_event } => BlobStatusView::Existent {
                end_epoch: *end_epoch,
                status: *status,
                status_event: status_event@,
            },
        }
    }
}

impl View for StatusReport {
    type V = StatusReportView;

    open spec fn view(&self) -> StatusReportView {
        StatusReportView { status: self.status@, anchored: self.anchored }
    }
}

/// The content of each of a run of reports.
pub open spec fn report_views(reports: Seq<StatusReport>) -> Seq<StatusReportView> {
    Seq::new(reports.len(), |i: int| reports[i]@)
}

/// An event as it is written for people.
pub open spec fn event_text(event: EventIdView) -> Seq<char> {
    "(tx: "@ + event.tx_digest + ", seq: "@ + decimal(event.event_seq as nat) + ")"@
}

/// The word for a stage in the life of a blob.
pub open spec fn stage_name(status: BlobCertificationStatus) -> Seq<char> {
    match status {
        BlobCertificationStatus::Registered => "Registered"@,
        BlobCertificationStatus::Certified => "Certified"@,
        BlobCertificationStatus::Invalid => "Invalid"@,
    }
}

/// How far along a status is: an unknown blob least, an invalid one most.
pub open spec fn stage(status: BlobStatusView) -> int {
    match status {
        BlobStatusView::Nonexistent => 0,
        BlobStatusView::Existent { status: BlobCertificationStatus::Registered, .. } => 1,
        BlobStatusView::Existent { status: BlobCertificationStatus::Certified, .. } => 2,
        BlobStatusView::Existent { status: BlobCertificationStatus::Invalid, .. } => 3,
    }
}

/// The epoch at which a status ends; none for an unknown blob.
pub open spec fn end_epoch(status: BlobStatusView) -> int {
    match status {
        BlobStatusView::Nonexistent => 0,
        BlobStatusView::Existent { end_epoch, .. } => end_epoch as int,
    }
}

/// Whether one status is at least as advanced as another: further along,
/// or as far along and ending no earlier.
pub open spec fn at_least(a: BlobStatusView, b: BlobStatusView) -> bool {
    stage(a) > stage(b) || (stage(a) == stage(b) && end_epoch(a) >= end_epoch(b))
}

/// Whether a report can be gone by: the chain has the event it names, or
/// it names none because it says that the blob is unknown.
pub open spec fn verifiable(report: StatusReportView) -> bool {
    report.anchored || report.status is Nonexistent
}

/// Whether the report at `i` is the one to go by: it is verifiable, no
/// verifiable report is more advanced, and none before it is as advanced.
pub open spec fn is_choice(reports: Seq<StatusReportView>, i: int) -> bool {
    &&& 0 <= i < reports.len()
    &&& verifiable(reports[i])
    &&& forall|j: int|
        0 <= j < reports.len() && verifiable(#[trigger] reports[j]) ==> at_least(
            reports[i].status,
            reports[j].status,
        )
    &&& forall|j: int|
        0 <= j < i && verifiable(#[trigger] reports[j]) ==> !at_least(
            reports[j].status,
            reports[i].status,
        )
}

impl EventId {
    /// This event as it is written for people.
    pub fn format(&self) -> (r: String)
        ensures
            r@ == event_text(self@),
    {
        let mut out = String::from_str("(tx: ");
        out.append(self.tx_digest.as_str());
        out.append(", seq: ");
        push_decimal(&mut out, self.event_seq);
        out.append(")");
        assert(out@ =~= event_text(self@));
        out
    }
}

impl BlobCertificationStatus {
    /// The word for this stage.
    pub fn name(&self) -> (r: &'static str)
        ensures
            r@ == stage_name(*self),
    {
        match self {
            BlobCertificationStatus::Registered => "Registered",
            BlobCertificationStatus::Certified => "Certified",
            BlobCertificationStatus::Invalid => "Invalid",
        }
    }
}

impl BlobStatus {
    fn stage(&self) -> (r: u8)
        ensures
            r == stage(self@),
    {
        match self {
            BlobStatus::Nonexistent => 0,
            BlobStatus::Existent { status: BlobCertificationStatus::Registered, .. } => 1,
            BlobStatus::Existent { status: BlobCertificationStatus::Certified, .. } => 2,
            BlobStatus::Existent { status: BlobCertificationStatus::Invalid, .. } => 3,
        }
    }

    fn end_epoch(&self) -> (r: u64)
        ensures
            r == end_epoch(self@),
    {
        match self {
            BlobStatus::Nonexistent => 0,
            BlobStatus::Existent { end_epoch, .. } => *end_epoch,
        }
    }

    /// Whether this status is at least as advanced as `other`.
    pub fn at_least(&self, other: &BlobStatus) -> (r: bool)
        ensures
            r == at_least(self@, other@),
    {
        let a = self.stage();
        let b = other.stage();
        a > b || (a == b && self.end_epoch() >= other.end_epoch())
    }
}

impl StatusReport {
    /// Whether this report can be gone by.
    pub fn verifiable(&self) -> (r: bool)
        ensures
            r == verifiable(self@),
    {
        self.anchored || match self.status {
            BlobStatus::Nonexistent => true,
            _ => false,
        }
    }
}

/// The report to go by among those that came in: the place of the most
/// advanced one that is verifiable, the first of several equally advanced.
/// There is none exactly when no report is verifiable.
pub fn verified_status(reports: &Vec<StatusReport>) -> (r: Option<usize>)
    ensures
        match r {
            Some(i) => is_choice(report_views(reports@), i as int),
            None => forall|j: int|
                0 <= j < reports@.len() ==> !verifiable(#[trigger] report_views(reports@)[j]),
        },
{
    let ghost views = report_views(reports@);
    let mut best: Option<usize> = None;
    let mut i: usize = 0;
    while i < reports.len()
        invariant
            i <= reports@.len(),
            views == report_views(reports@),
            match best {
                Some(b) => is_choice(views.take(i as int), b as int),
                None => forall|j: int| 0 <= j < i ==> !verifiable(#[trigger] views[j]),
            },
        decreases reports@.len() - i,
    {
        let ghost before = views.take(i as int);
        let ghost after = views.take(i as int + 1);
        assert(views[i as int] == reports@[i as int]@);
        assert forall|j: int| 0 <= j < i implies #[trigger] after[j] == before[j] by {}
        assert(after[i as int] == views[i as int]);
        if reports[i].verifiable() {
            match best {
                Some(b) => {
                    assert(views[b as int] == reports@[b as int]@);
                    assert(before[b as int] == views[b as int]);
                    if reports[b].status.at_least(&reports[i].status) {
                        assert(is_choice(after, b as int)) by {
                            assert forall|j: int|
                                0 <= j < after.len() && verifiable(
                                    #[trigger] after[j],
                                ) implies at_least(after[b as int].status, after[j].status) by {
                                if j < i {
                                    assert(verifiable(before[j]));
                                }
                            }
                            assert forall|j: int|
                                0 <= j < b && verifiable(#[trigger] after[j]) implies !at_least(
                                after[j].status,
                                after[b as int].status,
                            ) by {
                                assert(verifiable(before[j]));
                            }
                        }
                    } else {
                        assert(is_choice(after, i as int)) by {
                            assert forall|j: int|
                                0 <= j < after.len() && verifiable(
                                    #[trigger] after[j],
                                ) implies at_least(after[i as int].status, after[j].status) by {
                                if j < i {
                                    assert(verifiable(before[j]));
                                    assert(at_least(before[b as int].status, before[j].status));
                                }
                            }
                            assert forall|j: int|
                                0 <= j < i && verifiable(#[trigger] after[j]) implies !at_least(
                                after[j].status,
                                after[i as int].status,
                            ) by {
                                assert(verifiable(before[j]));
                                assert(at_least(before[b as int].status, before[j].status));
                            }
                        }
                        best = Some(i);
                    }
                },
                None => {
                    assert(is_choice(after, i as int)) by {
                        assert forall|j: int|
                            0 <= j < after.len() && verifiable(
                                #[trigger] after[j],
                            ) implies at_least(after[i as int].status, after[j].status) by {
                            if j < i {
                                assert(after[j] == views[j]);
                            }
                        }
                        assert forall|j: int|
                            0 <= j < i && verifiable(#[trigger] after[j]) implies !at_least(
                            after[j].status,
                            after[i as int].status,
                        ) by {
                            assert(after[j] == views[j]);
                        }
                    }
                    best = Some(i);
                },
            }
        } else {
            match best {
                Some(b) => {
                    assert(before[b as int] == after[b as int]);
                    assert(is_choice(after, b as int)) by {
                        assert forall|j: int|
                            0 <= j < after.len() && verifiable(
                                #[trigger] after[j],
                            ) implies at_least(after[b as int].status, after[j].status) by {
                            assert(j < i);
                            assert(verifiable(before[j]));
                        }
                        assert forall|j: int|
                            0 <= j < b && verifiable(#[trigger] after[j]) implies !at_least(
                            after[j].status,
                            after[b as int].status,
                        ) by {
                            assert(verifiable(before[j]));
                        }
                    }
                },
                None => {},
            }
        }
        i += 1;
    }
    assert(views.take(i as int) =~= views);
    best
}

/// At most one report is the one to go by.
pub proof fn lemma_choice_unique(reports: Seq<StatusReportView>, i: int, j: int)
    requires
        is_choice(reports, i),
        is_choice(reports, j),
    ensures
        i == j,
{
    if i < j {
        assert(verifiable(reports[i]));
        assert(at_least(reports[i].status, reports[j].status));
    } else if j < i {
        assert(verifiable(reports[j]));
        assert(at_least(reports[j].status, reports[i].status));
    }
}

/// Where no report that holds the blob to be invalid is borne out by the
/// chain, the status taken is not that the blob is invalid: it is the most
/// advanced of those that the chain bears out.
pub proof fn lemma_unanchored_invalid_is_passed_over(reports: Seq<StatusReportView>, i: int)
    requires
        is_choice(reports, i),
        forall|j: int|
            0 <= j < reports.len() && stage((#[trigger] reports[j]).status) == 3
                ==> !reports[j].anchored,
    ensures
        stage(reports[i].status) != 3,
        verifiable(reports[i]),
        forall|j: int|
            0 <= j < reports.len() && verifiable(#[trigger] reports[j]) ==> at_least(
                reports[i].status,
                reports[j].status,
            ),
{
}

} // verus!
