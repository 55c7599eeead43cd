//! Batch orchestration.  The batch owns the input rows and advances one row
//! at a time through lookup and upload; the surrounding binary performs each
//! requested exchange and hands the outcome back.  Every row yields exactly
//! one recorded outcome, in row order, and a failed row never stops the rows
//! after it.

use vstd::prelude::*;
use vstd::seq_lib::*;
use vstd::string::*;
use crate::path::decompose_location;
use crate::payload::{
    build_document, render_document, upload_body_of, AssetRecord, RecordModel,
};
use crate::search::{
    build_search_query, lookup_body_of, select_parent, spec_resolved_parent,
    spec_target_entity_type, target_entity_type,
};

verus! {

/// One row handed in by the record source: either a validated record or the
/// description of why the row failed to parse.
pub enum RowInput {
    Parsed(AssetRecord),
    Malformed(String),
}

/// The mathematical model of a row.
pub enum RowModel {
    Parsed(RecordModel),
    Malformed(Seq<char>),
}

impl View for RowInput {
    type V = RowModel;

    open spec fn view(&self) -> RowModel {
        match self {
            RowInput::Parsed(r) => RowModel::Parsed(r@),
            RowInput::Malformed(m) => RowModel::Malformed(m@),
        }
    }
}

impl DeepView for RowInput {
    type V = RowModel;

    open spec fn deep_view(&self) -> RowModel {
        self@
    }
}

/// What the search exchange for one row came back with: the listed result
/// identifiers, or the transport or status failure.
pub enum LookupEvent {
    Results(Vec<String>),
    Failed(String),
}

/// The mathematical model of a lookup event.
pub enum LookupEventModel {
    Results(Seq<Seq<char>>),
    Failed(Seq<char>),
}

impl View for LookupEvent {
    type V = LookupEventModel;

    open spec fn view(&self) -> LookupEventModel {
        match self {
            LookupEvent::Results(ids) => LookupEventModel::Results(ids.deep_view()),
            LookupEvent::Failed(m) => LookupEventModel::Failed(m@),
        }
    }
}

/// What the creation exchange for one row came back with: the remote
/// response body on success, or the status or transport failure.
pub enum UploadEvent {
    Accepted(String),
    Rejected(String),
}

/// The mathematical model of an upload event.
pub enum UploadEventModel {
    Accepted(Seq<char>),
    Rejected(Seq<char>),
}

impl View for UploadEvent {
    type V = UploadEventModel;

    open spec fn view(&self) -> UploadEventModel {
        match self {
            UploadEvent::Accepted(m) => UploadEventModel::Accepted(m@),
            UploadEvent::Rejected(m) => UploadEventModel::Rejected(m@),
        }
    }
}

/// The recorded outcome of one row.
pub enum RecordOutcome {
    Uploaded(String),
    LookupFailed(String),
    UploadFailed(String),
    RecordParseError(String),
}

/// The mathematical model of a recorded outcome.
pub enum OutcomeModel {
    Uploaded(Seq<char>),
    LookupFailed(Seq<char>),
    UploadFailed(Seq<char>),
    RecordParseError(Seq<char>),
}

impl View for RecordOutcome {
    type V = OutcomeModel;

    open spec fn view(&self) -> OutcomeModel {
        match self {
            RecordOutcome::Uploaded(m) => OutcomeModel::Uploaded(m@),
            RecordOutcome::LookupFailed(m) => OutcomeModel::LookupFailed(m@),
            RecordOutcome::UploadFailed(m) => OutcomeModel::UploadFailed(m@),
            RecordOutcome::RecordParseError(m) => OutcomeModel::RecordParseError(m@),
        }
    }
}

impl DeepView for RecordOutcome {
    type V = OutcomeModel;

    open spec fn deep_view(&self) -> OutcomeModel {
        self@
    }
}

/// Where the batch stands within the current row.
pub enum Phase {
    Idle,
    AwaitLookup,
    AwaitUpload(String),
}

/// The mathematical model of a phase.
pub enum PhaseModel {
    Idle,
    AwaitLookup,
    AwaitUpload(Seq<char>),
}

impl View for Phase {
    type V = PhaseModel;

    open spec fn view(&self) -> PhaseModel {
        match self {
            Phase::Idle => PhaseModel::Idle,
            Phase::AwaitLookup => PhaseModel::AwaitLookup,
            Phase::AwaitUpload(b) => PhaseModel::AwaitUpload(b@),
        }
    }
}

/// The request body held by an awaiting-upload phase.
pub open spec fn phase_body(p: PhaseModel) -> Seq<char> {
    match p {
        PhaseModel::AwaitUpload(b) => b,
        _ => arbitrary(),
    }
}

/// The record of a parsed row.
pub open spec fn row_record(r: RowModel) -> RecordModel {
    match r {
        RowModel::Parsed(rec) => rec,
        RowModel::Malformed(_) => arbitrary(),
    }
}

/// The message of a malformed row.
pub open spec fn row_message(r: RowModel) -> Seq<char> {
    match r {
        RowModel::Parsed(_) => arbitrary(),
        RowModel::Malformed(m) => m,
    }
}

/// The mathematical model of a batch in progress.
#[verifier::ext_equal]
pub struct BatchModel {
    pub rows: Seq<RowModel>,
    pub pos: int,
    pub phase: PhaseModel,
    pub outcomes: Seq<OutcomeModel>,
}

/// Well-formedness: one outcome has been recorded for every row before the
/// current one, and mid-row phases only occur on a parsed current row.
pub open spec fn batch_wf(b: BatchModel) -> bool {
    &&& 0 <= b.pos <= b.rows.len()
    &&& b.outcomes.len() == b.pos
    &&& !(b.phase is Idle) ==> (b.pos < b.rows.len() && b.rows[b.pos] is Parsed)
}

/// The record of the current row.
pub open spec fn current_record(b: BatchModel) -> RecordModel {
    row_record(b.rows[b.pos])
}

/// Consumes every malformed row in front of the cursor, recording one
/// invalid-record outcome per row.
pub open spec fn spec_skip_malformed(b: BatchModel) -> BatchModel
    decreases b.rows.len() - b.pos,
    when 0 <= b.pos <= b.rows.len()
{
    if b.pos < b.rows.len() && (b.rows[b.pos] is Malformed) {
        spec_skip_malformed(
            BatchModel {
                pos: b.pos + 1,
                outcomes: b.outcomes.push(OutcomeModel::RecordParseError(row_message(b.rows[b.pos]))),
                ..b
            },
        )
    } else {
        b
    }
}

/// What stepping an idle batch does: malformed rows are consumed, and if a
/// parsed row remains it becomes the current row awaiting its lookup.
pub open spec fn spec_next(b: BatchModel) -> BatchModel {
    if b.phase is Idle {
        let s = spec_skip_malformed(b);
        if s.pos == s.rows.len() {
            s
        } else {
            BatchModel { phase: PhaseModel::AwaitLookup, ..s }
        }
    } else {
        b
    }
}

/// What a lookup event does: a failure records the row's outcome and moves
/// on; a result list resolves the parent and leaves the rendered creation
/// body awaiting upload.
pub open spec fn spec_lookup_step(b: BatchModel, ev: LookupEventModel) -> BatchModel {
    match ev {
        LookupEventModel::Failed(msg) => BatchModel {
            pos: b.pos + 1,
            phase: PhaseModel::Idle,
            outcomes: b.outcomes.push(OutcomeModel::LookupFailed(msg)),
            ..b
        },
        LookupEventModel::Results(ids) => BatchModel {
            phase: PhaseModel::AwaitUpload(
                upload_body_of(current_record(b), spec_resolved_parent(ids)),
            ),
            ..b
        },
    }
}

/// What an upload event does: either way the row's outcome is recorded and
/// the batch moves on to the next row.
pub open spec fn spec_upload_step(b: BatchModel, ev: UploadEventModel) -> BatchModel {
    match ev {
        UploadEventModel::Accepted(resp) => BatchModel {
            pos: b.pos + 1,
            phase: PhaseModel::Idle,
            outcomes: b.outcomes.push(OutcomeModel::Uploaded(resp)),
            ..b
        },
        UploadEventModel::Rejected(err) => BatchModel {
            pos: b.pos + 1,
            phase: PhaseModel::Idle,
            outcomes: b.outcomes.push(OutcomeModel::UploadFailed(err)),
            ..b
        },
    }
}

/// The action the surrounding binary is asked to perform next.
pub enum Step {
    Lookup { entity_type: String, body: String },
    Upload { body: String },
    Done,
}

/// A batch upload in progress.
pub struct Batch {
    rows: Vec<RowInput>,
    pos: usize,
    phase: Phase,
    outcomes: Vec<RecordOutcome>,
}

impl View for Batch {
    type V = BatchModel;

    closed spec fn view(&self) -> BatchModel {
        BatchModel {
            rows: self.rows.deep_view(),
            pos: self.pos as int,
            phase: self.phase@,
            outcomes: self.outcomes.deep_view(),
        }
    }
}

impl Batch {
    /// Starts a batch over the rows the record source yielded, in order.
    pub fn new(rows: Vec<RowInput>) -> (b: Batch)
        ensures
            batch_wf(b@),
            b@.rows == rows.deep_view(),
            b@.pos == 0,
            b@.outcomes.len() == 0,
            b@.phase is Idle,
    {
        let b = Batch { rows, pos: 0, phase: Phase::Idle, outcomes: Vec::new() };
        proof {
            assert(b@.outcomes =~= Seq::<OutcomeModel>::empty());
        }
        b
    }

    /// Renders the lookup request of the current (parsed) row.
    fn make_lookup(&self) -> (r: (String, String))
        requires
            0 <= self@.pos < self@.rows.len(),
            self@.rows[self@.pos] is Parsed,
        ensures
            r.0@ == spec_target_entity_type(current_record(self@).asset_type),
            r.1@ == lookup_body_of(current_record(self@).asset_type, current_record(self@).location),
    {
        match &self.rows[self.pos] {
            RowInput::Parsed(rec) => {
                let et = target_entity_type(rec.asset_type.as_str());
                let parts = decompose_location(rec.location.as_str());
                let body = build_search_query(
                    et,
                    parts.ancestor_tabbed.as_str(),
                    parts.leaf.as_str(),
                );
                (String::from_str(et), body)
            },
            RowInput::Malformed(_) => {
                proof {
                    assert(false);
                }
                (String::new(), String::new())
            },
        }
    }

    /// Whether the cursor stands on a malformed row.
    fn at_malformed(&self) -> (r: bool)
        ensures
            r == (self@.pos < self@.rows.len() && self@.rows[self@.pos] is Malformed),
    {
        if self.pos < self.rows.len() {
            match &self.rows[self.pos] {
                RowInput::Malformed(_) => true,
                RowInput::Parsed(_) => false,
            }
        } else {
            false
        }
    }

    /// Hands out the next action: consumes malformed rows, then asks for the
    /// current row's lookup, the pending upload, or reports completion.
    pub fn next_step(&mut self) -> (s: Step)
        requires
            batch_wf(old(self)@),
        ensures
            batch_wf(final(self)@),
            final(self)@ == spec_next(old(self)@),
            (match s {
                Step::Done => final(self)@.pos == final(self)@.rows.len() && final(self)@.phase is Idle,
                Step::Lookup { entity_type, body } => {
                    &&& final(self)@.phase is AwaitLookup
                    &&& final(self)@.pos < final(self)@.rows.len()
                    &&& final(self)@.rows[final(self)@.pos] is Parsed
                    &&& entity_type@ == spec_target_entity_type(
                        current_record(final(self)@).asset_type,
                    )
                    &&& body@ == lookup_body_of(
                        current_record(final(self)@).asset_type,
                        current_record(final(self)@).location,
                    )
                },
                Step::Upload { body } => final(self)@.phase is AwaitUpload && body@ == phase_body(
                    final(self)@.phase,
                ),
            }),
    {
        match &self.phase {
            Phase::AwaitUpload(b) => {
                return Step::Upload { body: b.clone() };
            },
            Phase::AwaitLookup => {
                let (entity_type, body) = self.make_lookup();
                return Step::Lookup { entity_type, body };
            },
            Phase::Idle => {},
        }
        let ghost orig = self@;
        while self.at_malformed()
            invariant
                batch_wf(self@),
                self@.phase is Idle,
                spec_skip_malformed(self@) == spec_skip_malformed(orig),
            decreases self@.rows.len() - self@.pos,
        {
            let msg: String = match &self.rows[self.pos] {
                RowInput::Malformed(m) => m.clone(),
                RowInput::Parsed(_) => {
                    proof {
                        assert(false);
                    }
                    String::new()
                },
            };
            let ghost pre = self@;
            proof {
                assert(msg@ == row_message(pre.rows[pre.pos]));
            }
            let n = self.rows.len();
            proof {
                assert(pre.pos < n as int);
            }
            self.outcomes.push(RecordOutcome::RecordParseError(msg));
            self.pos = self.pos + 1;
            proof {
                assert(self@.outcomes =~= pre.outcomes.push(
                    OutcomeModel::RecordParseError(row_message(pre.rows[pre.pos])),
                ));
                assert(self@ =~= (BatchModel {
                    pos: pre.pos + 1,
                    outcomes: pre.outcomes.push(
                        OutcomeModel::RecordParseError(row_message(pre.rows[pre.pos])),
                    ),
                    ..pre
                }));
            }
        }
        proof {
            assert(spec_skip_malformed(self@) == self@);
            assert(self@ == spec_skip_malformed(orig));
        }
        if self.pos == self.rows.len() {
            return Step::Done;
        }
        self.phase = Phase::AwaitLookup;
        let (entity_type, body) = self.make_lookup();
        Step::Lookup { entity_type, body }
    }

    /// Feeds back what the search exchange came back with.
    pub fn lookup_result(&mut self, ev: LookupEvent)
        requires
            batch_wf(old(self)@),
            old(self)@.phase is AwaitLookup,
        ensures
            batch_wf(final(self)@),
            final(self)@ == spec_lookup_step(old(self)@, ev@),
    {
        match ev {
            LookupEvent::Failed(m) => {
                let ghost pre = self@;
                let n = self.rows.len();
                proof {
                    assert(pre.pos < n as int);
                }
                self.outcomes.push(RecordOutcome::LookupFailed(m));
                self.pos = self.pos + 1;
                self.phase = Phase::Idle;
                proof {
                    assert(self@.outcomes =~= spec_lookup_step(pre, ev@).outcomes);
                    assert(self@ =~= spec_lookup_step(pre, ev@));
                }
            },
            LookupEvent::Results(ids) => {
                let parent = select_parent(&ids);
                let body = match &self.rows[self.pos] {
                    RowInput::Parsed(rec) => {
                        let doc = build_document(rec, parent.as_str());
                        render_document(&doc)
                    },
                    RowInput::Malformed(_) => {
                        proof {
                            assert(false);
                        }
                        String::new()
                    },
                };
                let ghost pre = self@;
                self.phase = Phase::AwaitUpload(body);
                proof {
                    assert(self@ =~= spec_lookup_step(pre, ev@));
                }
            },
        }
    }

    /// Feeds back what the creation exchange came back with.
    pub fn upload_result(&mut self, ev: UploadEvent)
        requires
            batch_wf(old(self)@),
            old(self)@.phase is AwaitUpload,
        ensures
            batch_wf(final(self)@),
            final(self)@ == spec_upload_step(old(self)@, ev@),
    {
        let ghost pre = self@;
        let n = self.rows.len();
        proof {
            assert(pre.pos < n as int);
        }
        match ev {
            UploadEvent::Accepted(resp) => {
                self.outcomes.push(RecordOutcome::Uploaded(resp));
            },
            UploadEvent::Rejected(err) => {
                self.outcomes.push(RecordOutcome::UploadFailed(err));
            },
        }
        self.pos = self.pos + 1;
        self.phase = Phase::Idle;
        proof {
            assert(self@.outcomes =~= spec_upload_step(pre, ev@).outcomes);
            assert(self@ =~= spec_upload_step(pre, ev@));
        }
    }

    /// Whether the batch stands mid-row, waiting for a lookup event.
    pub fn awaiting_lookup(&self) -> (r: bool)
        ensures
            r == (self@.phase is AwaitLookup),
    {
        match &self.phase {
            Phase::AwaitLookup => true,
            _ => false,
        }
    }

    /// Whether the batch stands mid-row, waiting for an upload event.
    pub fn awaiting_upload(&self) -> (r: bool)
        ensures
            r == (self@.phase is AwaitUpload),
    {
        match &self.phase {
            Phase::AwaitUpload(_) => true,
            _ => false,
        }
    }

    /// Whether every row has been consumed and reported.
    pub fn done(&self) -> (r: bool)
        ensures
            r == (self@.pos == self@.rows.len() && self@.phase is Idle),
    {
        let idle = match &self.phase {
            Phase::Idle => true,
            _ => false,
        };
        self.pos == self.rows.len() && idle
    }

    /// The outcomes recorded so far, one per consumed row, in row order.
    pub fn outcomes(&self) -> (r: &Vec<RecordOutcome>)
        ensures
            r.deep_view() == self@.outcomes,
    {
        &self.outcomes
    }

    /// How many rows the batch was started with.
    pub fn row_count(&self) -> (n: usize)
        ensures
            n == self@.rows.len(),
    {
        self.rows.len()
    }
}

/// Consuming malformed rows preserves well-formedness, never touches the
/// rows themselves, keeps the outcomes already recorded as a prefix, and
/// stops either at the end or on a parsed row.
pub proof fn lemma_skip_malformed(b: BatchModel)
    requires
        batch_wf(b),
    ensures
        ({
            let s = spec_skip_malformed(b);
            &&& batch_wf(s)
            &&& s.rows == b.rows
            &&& s.phase == b.phase
            &&& b.pos <= s.pos
            &&& b.outcomes.is_prefix_of(s.outcomes)
            &&& (s.pos < s.rows.len() ==> s.rows[s.pos] is Parsed)
        }),
    decreases b.rows.len() - b.pos,
{
    if b.pos < b.rows.len() && (b.rows[b.pos] is Malformed) {
        let b1 = BatchModel {
            pos: b.pos + 1,
            outcomes: b.outcomes.push(OutcomeModel::RecordParseError(row_message(b.rows[b.pos]))),
            ..b
        };
        lemma_skip_malformed(b1);
        assert(b.outcomes.is_prefix_of(b1.outcomes));
        lemma_prefix_transitive(b.outcomes, b1.outcomes, spec_skip_malformed(b1).outcomes);
    }
}

proof fn lemma_prefix_transitive(a: Seq<OutcomeModel>, b: Seq<OutcomeModel>, c: Seq<OutcomeModel>)
    requires
        a.is_prefix_of(b),
        b.is_prefix_of(c),
    ensures
        a.is_prefix_of(c),
{
    assert(a =~= c.subrange(0, a.len() as int));
}

/// Every row yields exactly one outcome: once the batch has consumed all its
/// rows, the outcome sequence has the same length as the row sequence.
pub proof fn lemma_batch_complete(b: BatchModel)
    requires
        batch_wf(b),
        b.pos == b.rows.len(),
    ensures
        b.outcomes.len() == b.rows.len(),
{
}

/// Every transition keeps the outcomes already recorded unchanged, as a
/// prefix of the new outcome sequence: outcomes stay in row order no matter
/// how any individual row fares.
pub proof fn lemma_outcomes_append_only(b: BatchModel, lev: LookupEventModel, uev: UploadEventModel)
    requires
        batch_wf(b),
    ensures
        b.outcomes.is_prefix_of(spec_next(b).outcomes),
        b.phase is AwaitLookup ==> b.outcomes.is_prefix_of(spec_lookup_step(b, lev).outcomes),
        b.phase is AwaitUpload ==> b.outcomes.is_prefix_of(spec_upload_step(b, uev).outcomes),
{
    if b.phase is Idle {
        lemma_skip_malformed(b);
    } else {
        assert(b.outcomes.is_prefix_of(b.outcomes));
    }
    match lev {
        LookupEventModel::Failed(m) => {
            assert(spec_lookup_step(b, lev).outcomes == b.outcomes.push(
                OutcomeModel::LookupFailed(m),
            ));
        },
        LookupEventModel::Results(_) => {},
    }
}

/// The outcome one row ends up with, as a function of that row and its own
/// two exchanges alone: a malformed row reports its parse error, a failed
/// lookup reports the lookup failure, and otherwise the upload exchange
/// decides between success and upload failure.
pub open spec fn outcome_of_row(
    row: RowModel,
    lev: LookupEventModel,
    uev: UploadEventModel,
) -> OutcomeModel {
    match row {
        RowModel::Malformed(m) => OutcomeModel::RecordParseError(m),
        RowModel::Parsed(_) => match lev {
            LookupEventModel::Failed(m) => OutcomeModel::LookupFailed(m),
            LookupEventModel::Results(_) => match uev {
                UploadEventModel::Accepted(r) => OutcomeModel::Uploaded(r),
                UploadEventModel::Rejected(e) => OutcomeModel::UploadFailed(e),
            },
        },
    }
}

/// Running the current row to completion appends exactly the outcome that
/// the row and its own events determine, and nothing else changes: the rows
/// stay as they are, every earlier outcome stays as it is, and the batch
/// stands idle in front of the next row.  Outcomes therefore arrive in row
/// order, and no row's events can influence another row's outcome.
pub proof fn lemma_row_outcome(b: BatchModel, lev: LookupEventModel, uev: UploadEventModel)
    requires
        batch_wf(b),
        b.phase is AwaitLookup,
    ensures
        ({
            let after = if lev is Failed {
                spec_lookup_step(b, lev)
            } else {
                spec_upload_step(spec_lookup_step(b, lev), uev)
            };
            &&& batch_wf(after)
            &&& after.rows == b.rows
            &&& after.pos == b.pos + 1
            &&& after.phase is Idle
            &&& after.outcomes == b.outcomes.push(outcome_of_row(b.rows[b.pos], lev, uev))
        }),
{
}

/// One row's failure is isolated: a failed lookup or a rejected upload
/// records exactly that row's failure outcome, leaves every other row and
/// every earlier outcome unchanged, and puts the batch idle in front of the
/// next row, ready to process it.
pub proof fn lemma_failure_isolated(b: BatchModel, msg: Seq<char>)
    requires
        batch_wf(b),
    ensures
        b.phase is AwaitLookup ==> ({
            let b2 = spec_lookup_step(b, LookupEventModel::Failed(msg));
            &&& batch_wf(b2)
            &&& b2.rows == b.rows
            &&& b2.pos == b.pos + 1
            &&& b2.phase is Idle
            &&& b2.outcomes == b.outcomes.push(OutcomeModel::LookupFailed(msg))
        }),
        b.phase is AwaitUpload ==> ({
            let b2 = spec_upload_step(b, UploadEventModel::Rejected(msg));
            &&& batch_wf(b2)
            &&& b2.rows == b.rows
            &&& b2.pos == b.pos + 1
            &&& b2.phase is Idle
            &&& b2.outcomes == b.outcomes.push(OutcomeModel::UploadFailed(msg))
        }),
{
}

} // verus!
