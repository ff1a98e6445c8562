//! The pipeline coordinator: a state machine from the current state and the
//! outcome of the last external operation to the next state, with the next
//! operation to perform derived from the state.
//!
//! The embedding program performs the external operations (size query, block
//! allocation, formatting, loopback mount, recursive copy, attribute set,
//! unmount, rename) and reports each outcome as an [`Event`]; the machine
//! decides what happens next. The machine guarantees that a successful attach
//! is followed by exactly one detach request on every exit path, and that the
//! final rename is requested only after every other step has succeeded.

use crate::estimate;
use crate::estimate::{spec_capacity_mb, spec_total_bytes, BYTES_PER_MB, ENTRY_OVERHEAD};
use crate::manifest::ManifestEntry;
use crate::parse;
use vstd::prelude::*;

verus! {

/// The milestone the run has reached. `Failed` and `Finalized` are the
/// terminal states; `Finalized` is the sole success terminal.
#[derive(Clone, Copy, Debug, PartialEq, Eq, Structural)]
pub enum State {
    /// Querying entry sizes.
    Start,
    /// All sizes received; capacity derived.
    SizeEstimated,
    /// Raw image allocated.
    Allocated,
    /// Image formatted with the target filesystem and label.
    Formatted,
    /// Image attached at the mount point; copying entries.
    Mounted,
    /// Every entry copied.
    Populated,
    /// Custom-icon attribute set; awaiting the detach outcome.
    Tagged,
    /// A failure occurred while the image was attached; awaiting the outcome
    /// of the forced cleanup detach.
    ErrorDetaching,
    /// Image detached; awaiting the final rename.
    Detached,
    /// The image stands at the output path. Terminal.
    Finalized,
    /// The run failed; the root cause is recorded. Terminal.
    Failed,
}

/// The next external operation the embedding program must perform.
#[derive(Clone, Copy, Debug, PartialEq, Eq, Structural)]
pub enum Action {
    /// Query the recursive byte size of the manifest entry at `index`.
    QuerySize { index: usize },
    /// Create a zero-filled raw image of `capacity_mb` whole megabytes.
    Allocate { capacity_mb: u64 },
    /// Format the raw image with the target filesystem and the volume label.
    Format,
    /// Attach the image as a loopback-mounted filesystem at the mount point.
    Attach,
    /// Recursively copy the manifest entry at `index` into the mounted
    /// filesystem at its destination path.
    CopyEntry { index: usize },
    /// Set the custom-icon attribute on the mount point.
    SetAttribute,
    /// Unmount the filesystem at the mount point. Requested exactly once per
    /// successful attach; detaching twice is never requested.
    Detach,
    /// Move the working image to the caller's output path, replacing any
    /// file already there.
    Finalize,
    /// The run is over; inspect the state and the recorded error.
    Stop,
}

/// The outcome of the last requested operation, reported by the embedding
/// program.
pub enum Event {
    /// The size query finished; `output` is its raw output.
    SizeOutput { output: Vec<u8> },
    AllocateDone,
    AllocateFailed { diagnostic: String },
    FormatDone,
    FormatFailed { diagnostic: String },
    AttachDone,
    AttachFailed { diagnostic: String },
    CopyDone,
    CopyFailed { diagnostic: String },
    AttributeDone,
    AttributeFailed { diagnostic: String },
    DetachDone,
    DetachFailed { diagnostic: String },
    RenameDone,
    RenameFailed { diagnostic: String },
}

/// The closed set of failure kinds, each carrying the underlying tool's raw
/// diagnostic output where one exists.
pub enum DmgError {
    /// The size query's output held no field that is a decimal number
    /// fitting in a `u64`, or the reported sizes exceed what a raw image's
    /// byte count can represent. Carries the raw output of the query for the
    /// manifest entry at `index`.
    SizeQueryFailure { index: usize, output: Vec<u8> },
    /// The block-writing operation could not complete.
    AllocationFailure { capacity_mb: u64, diagnostic: String },
    /// The formatting tool failed.
    FormatFailure { diagnostic: String },
    /// The loopback attach failed; no further pipeline step runs.
    MountFailure { diagnostic: String },
    /// Copying the manifest entry at `index` failed; no later entry was
    /// attempted.
    CopyFailure { index: usize, diagnostic: String },
    /// Setting the custom-icon attribute failed.
    AttributeFailure { diagnostic: String },
    /// The detach failed. On the success path this is the root cause; on the
    /// error path the cleanup failure is recorded beside the root cause
    /// instead.
    UnmountFailure { diagnostic: String },
    /// The final move to the output path failed. A failed rename leaves the
    /// destination untouched.
    RenameFailure { diagnostic: String },
}

/// One pipeline run. Construct with [`Pipeline::new`], then alternate
/// [`Pipeline::next_action`] and [`Pipeline::step`] until the action is
/// [`Action::Stop`].
#[verifier::ext_equal]
pub struct Pipeline {
    /// The copy manifest, in copy order.
    pub entries: Vec<ManifestEntry>,
    /// The volume label the image is formatted with.
    pub label: String,
    /// The milestone reached.
    pub state: State,
    /// The entry whose size is queried next (meaningful in `Start`).
    pub next_size: usize,
    /// Running total of the received sizes, each plus the per-entry
    /// overhead.
    pub total_bytes: u64,
    /// Derived image capacity in whole megabytes (valid from
    /// `SizeEstimated` on).
    pub capacity_mb: u64,
    /// The entry to copy next (meaningful in `Mounted`).
    pub next_copy: usize,
    /// The first root-cause error, set when the run fails.
    pub error: Option<DmgError>,
    /// The diagnostic of a failing cleanup detach, reported beside the root
    /// cause, never in its place.
    pub cleanup_error: Option<String>,
    /// How many times a detach has been requested.
    pub detach_requests: u64,
    /// How many times the final rename has been requested.
    pub finalize_requests: u64,
    /// Whether the loopback attach succeeded at some point.
    pub attach_ok: bool,
    /// Whether the custom-icon attribute was reported set.
    pub attribute_ok: bool,
    /// The sizes received so far, as parsed from the query outputs.
    pub sizes: Ghost<Seq<u64>>,
}

impl Pipeline {
    /// Which events are meaningful in the current state: exactly the
    /// outcomes of the operation that [`Pipeline::next_action`] requests.
    pub open spec fn expects(self, ev: Event) -> bool {
        match self.state {
            State::Start => ev is SizeOutput,
            State::SizeEstimated => ev is AllocateDone || ev is AllocateFailed,
            State::Allocated => ev is FormatDone || ev is FormatFailed,
            State::Formatted => ev is AttachDone || ev is AttachFailed,
            State::Mounted => ev is CopyDone || ev is CopyFailed,
            State::Populated => ev is AttributeDone || ev is AttributeFailed,
            State::Tagged => ev is DetachDone || ev is DetachFailed,
            State::ErrorDetaching => ev is DetachDone || ev is DetachFailed,
            State::Detached => ev is RenameDone || ev is RenameFailed,
            State::Finalized => false,
            State::Failed => false,
        }
    }

    /// Whether the run is over.
    pub open spec fn is_terminal(self) -> bool {
        self.state is Finalized || self.state is Failed
    }

    /// Well-formedness: what holds of every reachable pipeline value.
    pub open spec fn wf(self) -> bool {
        &&& self.entries@.len() >= 1
        &&& self.sizes@.len() <= self.entries@.len()
        &&& self.total_bytes == spec_total_bytes(self.sizes@)
        &&& match self.state {
            State::Start => {
                &&& self.next_size == self.sizes@.len()
                &&& self.next_size < self.entries@.len()
                &&& !self.attach_ok
                &&& !self.attribute_ok
                &&& self.detach_requests == 0
                &&& self.finalize_requests == 0
                &&& self.error is None
                &&& self.cleanup_error is None
            },
            State::SizeEstimated | State::Allocated | State::Formatted => {
                &&& self.estimated()
                &&& !self.attach_ok
                &&& !self.attribute_ok
                &&& self.detach_requests == 0
                &&& self.finalize_requests == 0
                &&& self.error is None
                &&& self.cleanup_error is None
            },
            State::Mounted => {
                &&& self.estimated()
                &&& self.attach_ok
                &&& !self.attribute_ok
                &&& self.next_copy < self.entries@.len()
                &&& self.detach_requests == 0
                &&& self.finalize_requests == 0
                &&& self.error is None
                &&& self.cleanup_error is None
            },
            State::Populated => {
                &&& self.estimated()
                &&& self.attach_ok
                &&& !self.attribute_ok
                &&& self.next_copy == self.entries@.len()
                &&& self.detach_requests == 0
                &&& self.finalize_requests == 0
                &&& self.error is None
                &&& self.cleanup_error is None
            },
            State::Tagged => {
                &&& self.estimated()
                &&& self.attach_ok
                &&& self.attribute_ok
                &&& self.next_copy == self.entries@.len()
                &&& self.detach_requests == 1
                &&& self.finalize_requests == 0
                &&& self.error is None
                &&& self.cleanup_error is None
            },
            State::ErrorDetaching => {
                &&& self.attach_ok
                &&& self.detach_requests == 1
                &&& self.finalize_requests == 0
                &&& self.cleanup_error is None
                &&& match self.error {
                    Some(e) => e is CopyFailure || e is AttributeFailure,
                    None => false,
                }
            },
            State::Detached => {
                &&& self.estimated()
                &&& self.attach_ok
                &&& self.attribute_ok
                &&& self.next_copy == self.entries@.len()
                &&& self.detach_requests == 1
                &&& self.finalize_requests == 1
                &&& self.error is None
                &&& self.cleanup_error is None
            },
            State::Finalized => {
                &&& self.estimated()
                &&& self.attach_ok
                &&& self.attribute_ok
                &&& self.next_copy == self.entries@.len()
                &&& self.detach_requests == 1
                &&& self.finalize_requests == 1
                &&& self.error is None
                &&& self.cleanup_error is None
            },
            State::Failed => {
                &&& self.error is Some
                &&& self.detach_requests == (if self.attach_ok {
                    1u64
                } else {
                    0u64
                })
                &&& self.finalize_requests == (
                if self.error matches Some(DmgError::RenameFailure { .. }) {
                    1u64
                } else {
                    0u64
                })
                &&& (self.cleanup_error is Some ==> self.attach_ok)
            },
        }
    }

    /// All sizes were received and the capacity is their exact ceiling
    /// estimate.
    pub open spec fn estimated(self) -> bool {
        &&& self.sizes@.len() == self.entries@.len()
        &&& self.capacity_mb == spec_capacity_mb(spec_total_bytes(self.sizes@))
    }

    /// The next operation to perform, as a function of the state.
    pub open spec fn spec_next_action(self) -> Action {
        match self.state {
            State::Start => Action::QuerySize { index: self.next_size },
            State::SizeEstimated => Action::Allocate { capacity_mb: self.capacity_mb },
            State::Allocated => Action::Format,
            State::Formatted => Action::Attach,
            State::Mounted => Action::CopyEntry { index: self.next_copy },
            State::Populated => Action::SetAttribute,
            State::Tagged => Action::Detach,
            State::ErrorDetaching => Action::Detach,
            State::Detached => Action::Finalize,
            State::Finalized => Action::Stop,
            State::Failed => Action::Stop,
        }
    }

    /// The next operation to perform.
    pub fn next_action(&self) -> (a: Action)
        ensures
            a == self.spec_next_action(),
    {
        match self.state {
            State::Start => Action::QuerySize { index: self.next_size },
            State::SizeEstimated => Action::Allocate { capacity_mb: self.capacity_mb },
            State::Allocated => Action::Format,
            State::Formatted => Action::Attach,
            State::Mounted => Action::CopyEntry { index: self.next_copy },
            State::Populated => Action::SetAttribute,
            State::Tagged => Action::Detach,
            State::ErrorDetaching => Action::Detach,
            State::Detached => Action::Finalize,
            State::Finalized => Action::Stop,
            State::Failed => Action::Stop,
        }
    }

    /// A fresh run over `entries`, to be labeled `label`.
    pub fn new(entries: Vec<ManifestEntry>, label: String) -> (r: Pipeline)
        requires
            entries@.len() >= 1,
        ensures
            r == spec_new(entries, label),
            r.wf(),
            r.state is Start,
    {
        Pipeline {
            entries,
            label,
            state: State::Start,
            next_size: 0,
            total_bytes: 0,
            capacity_mb: 0,
            next_copy: 0,
            error: None,
            cleanup_error: None,
            detach_requests: 0,
            finalize_requests: 0,
            attach_ok: false,
            attribute_ok: false,
            sizes: Ghost(Seq::empty()),
        }
    }

    /// Feed the outcome of the last requested operation to the machine.
    pub fn step(&mut self, ev: Event)
        requires
            old(self).wf(),
            old(self).expects(ev),
        ensures
            final(self).wf(),
            *final(self) == spec_step(*old(self), ev),
    {
        let ghost pre = *self;
        let ghost ev0 = ev;
        let st = self.state;
        match (st, ev) {
            (State::Start, Event::SizeOutput { output }) => {
                let ghost output0 = output;
                let parsed = parse::du_first_number(output.as_slice());
                match parsed {
                    None => {
                        self.error = Some(
                            DmgError::SizeQueryFailure { index: self.next_size, output },
                        );
                        self.state = State::Failed;
                    },
                    Some(v) => {
                        proof {
                            parse::lemma_du_parse_in_range(output0@, 0);
                        }
                        let with_overhead = v.checked_add(ENTRY_OVERHEAD);
                        let new_total = match with_overhead {
                            Some(w) => self.total_bytes.checked_add(w),
                            None => None,
                        };
                        match new_total {
                            None => {
                                self.error = Some(
                                    DmgError::SizeQueryFailure { index: self.next_size, output },
                                );
                                self.state = State::Failed;
                            },
                            Some(t) => {
                                let n = self.entries.len();
                                assert(pre.next_size < pre.entries@.len());
                                self.total_bytes = t;
                                self.sizes = Ghost(self.sizes@.push(v));
                                proof {
                                    estimate::lemma_total_bytes_push(pre.sizes@, v);
                                }
                                if self.next_size + 1 == n {
                                    self.capacity_mb = estimate::capacity_mb(t);
                                    self.state = State::SizeEstimated;
                                } else {
                                    self.next_size = self.next_size + 1;
                                }
                            },
                        }
                    },
                }
                assert(*self =~= spec_step(pre, ev0));
            },
            (State::SizeEstimated, Event::AllocateDone) => {
                self.state = State::Allocated;
            },
            (State::SizeEstimated, Event::AllocateFailed { diagnostic }) => {
                self.error = Some(
                    DmgError::AllocationFailure { capacity_mb: self.capacity_mb, diagnostic },
                );
                self.state = State::Failed;
            },
            (State::Allocated, Event::FormatDone) => {
                self.state = State::Formatted;
            },
            (State::Allocated, Event::FormatFailed { diagnostic }) => {
                self.error = Some(DmgError::FormatFailure { diagnostic });
                self.state = State::Failed;
            },
            (State::Formatted, Event::AttachDone) => {
                self.attach_ok = true;
                self.next_copy = 0;
                self.state = State::Mounted;
            },
            (State::Formatted, Event::AttachFailed { diagnostic }) => {
                self.error = Some(DmgError::MountFailure { diagnostic });
                self.state = State::Failed;
            },
            (State::Mounted, Event::CopyDone) => {
                let n = self.entries.len();
                assert(pre.next_copy < pre.entries@.len());
                self.next_copy = self.next_copy + 1;
                if self.next_copy == n {
                    self.state = State::Populated;
                }
            },
            (State::Mounted, Event::CopyFailed { diagnostic }) => {
                self.error = Some(DmgError::CopyFailure { index: self.next_copy, diagnostic });
                self.detach_requests = self.detach_requests + 1;
                self.state = State::ErrorDetaching;
            },
            (State::Populated, Event::AttributeDone) => {
                self.attribute_ok = true;
                self.detach_requests = self.detach_requests + 1;
                self.state = State::Tagged;
            },
            (State::Populated, Event::AttributeFailed { diagnostic }) => {
                self.error = Some(DmgError::AttributeFailure { diagnostic });
                self.detach_requests = self.detach_requests + 1;
                self.state = State::ErrorDetaching;
            },
            (State::Tagged, Event::DetachDone) => {
                self.finalize_requests = self.finalize_requests + 1;
                self.state = State::Detached;
            },
            (State::Tagged, Event::DetachFailed { diagnostic }) => {
                self.error = Some(DmgError::UnmountFailure { diagnostic });
                self.state = State::Failed;
            },
            (State::ErrorDetaching, Event::DetachDone) => {
                self.state = State::Failed;
            },
            (State::ErrorDetaching, Event::DetachFailed { diagnostic }) => {
                self.cleanup_error = Some(diagnostic);
                self.state = State::Failed;
            },
            (State::Detached, Event::RenameDone) => {
                self.state = State::Finalized;
            },
            (State::Detached, Event::RenameFailed { diagnostic }) => {
                self.error = Some(DmgError::RenameFailure { diagnostic });
                self.state = State::Failed;
            },
            _ => {
                proof {
                    assert(false);
                }
            },
        }
    }
}

/// The value [`Pipeline::new`] returns.
pub open spec fn spec_new(entries: Vec<ManifestEntry>, label: String) -> Pipeline {
    Pipeline {
        entries,
        label,
        state: State::Start,
        next_size: 0,
        total_bytes: 0,
        capacity_mb: 0,
        next_copy: 0,
        error: None,
        cleanup_error: None,
        detach_requests: 0,
        finalize_requests: 0,
        attach_ok: false,
        attribute_ok: false,
        sizes: Ghost(Seq::empty()),
    }
}

/// The pipeline after a failure that needs no cleanup detach.
pub open spec fn spec_fail(pre: Pipeline, e: DmgError) -> Pipeline {
    Pipeline { state: State::Failed, error: Some(e), ..pre }
}

/// The pipeline after a failure that occurred while the image was attached:
/// a cleanup detach is requested before the terminal state.
pub open spec fn spec_fail_detaching(pre: Pipeline, e: DmgError) -> Pipeline {
    Pipeline {
        state: State::ErrorDetaching,
        error: Some(e),
        detach_requests: (pre.detach_requests + 1) as u64,
        ..pre
    }
}

/// The pipeline after one size-query outcome: parse the output, add the size
/// plus the per-entry overhead to the running total, and derive the capacity
/// once the last size is in. An unparseable output, or a total beyond what a
/// `u64` byte count can represent, fails the run.
pub open spec fn spec_on_size_output(pre: Pipeline, output: Vec<u8>) -> Pipeline {
    match parse::du_parse(output@) {
        None => spec_fail(pre, DmgError::SizeQueryFailure { index: pre.next_size, output }),
        Some(v) => if pre.total_bytes + v + ENTRY_OVERHEAD > u64::MAX {
            spec_fail(pre, DmgError::SizeQueryFailure { index: pre.next_size, output })
        } else {
            let with_size = Pipeline {
                total_bytes: (pre.total_bytes + v + ENTRY_OVERHEAD) as u64,
                sizes: Ghost(pre.sizes@.push(v as u64)),
                ..pre
            };
            if pre.next_size + 1 == pre.entries@.len() {
                Pipeline {
                    state: State::SizeEstimated,
                    capacity_mb: spec_capacity_mb(pre.total_bytes + v + ENTRY_OVERHEAD) as u64,
                    ..with_size
                }
            } else {
                Pipeline { next_size: (pre.next_size + 1) as usize, ..with_size }
            }
        },
    }
}

/// The transition function: the pipeline after one event. An event that the
/// state does not expect changes nothing.
pub open spec fn spec_step(pre: Pipeline, ev: Event) -> Pipeline {
    match (pre.state, ev) {
        (State::Start, Event::SizeOutput { output }) => spec_on_size_output(pre, output),
        (State::SizeEstimated, Event::AllocateDone) => Pipeline {
            state: State::Allocated,
            ..pre
        },
        (State::SizeEstimated, Event::AllocateFailed { diagnostic }) => spec_fail(
            pre,
            DmgError::AllocationFailure { capacity_mb: pre.capacity_mb, diagnostic },
        ),
        (State::Allocated, Event::FormatDone) => Pipeline { state: State::Formatted, ..pre },
        (State::Allocated, Event::FormatFailed { diagnostic }) => spec_fail(
            pre,
            DmgError::FormatFailure { diagnostic },
        ),
        (State::Formatted, Event::AttachDone) => Pipeline {
            state: State::Mounted,
            attach_ok: true,
            next_copy: 0,
            ..pre
        },
        (State::Formatted, Event::AttachFailed { diagnostic }) => spec_fail(
            pre,
            DmgError::MountFailure { diagnostic },
        ),
        (State::Mounted, Event::CopyDone) => if pre.next_copy + 1 == pre.entries@.len() {
            Pipeline {
                state: State::Populated,
                next_copy: (pre.next_copy + 1) as usize,
                ..pre
            }
        } else {
            Pipeline { next_copy: (pre.next_copy + 1) as usize, ..pre }
        },
        (State::Mounted, Event::CopyFailed { diagnostic }) => spec_fail_detaching(
            pre,
            DmgError::CopyFailure { index: pre.next_copy, diagnostic },
        ),
        (State::Populated, Event::AttributeDone) => Pipeline {
            state: State::Tagged,
            attribute_ok: true,
            detach_requests: (pre.detach_requests + 1) as u64,
            ..pre
        },
        (State::Populated, Event::AttributeFailed { diagnostic }) => spec_fail_detaching(
            pre,
            DmgError::AttributeFailure { diagnostic },
        ),
        (State::Tagged, Event::DetachDone) => Pipeline {
            state: State::Detached,
            finalize_requests: (pre.finalize_requests + 1) as u64,
            ..pre
        },
        (State::Tagged, Event::DetachFailed { diagnostic }) => spec_fail(
            pre,
            DmgError::UnmountFailure { diagnostic },
        ),
        (State::ErrorDetaching, Event::DetachDone) => Pipeline { state: State::Failed, ..pre },
        (State::ErrorDetaching, Event::DetachFailed { diagnostic }) => Pipeline {
            state: State::Failed,
            cleanup_error: Some(diagnostic),
            ..pre
        },
        (State::Detached, Event::RenameDone) => Pipeline { state: State::Finalized, ..pre },
        (State::Detached, Event::RenameFailed { diagnostic }) => spec_fail(
            pre,
            DmgError::RenameFailure { diagnostic },
        ),
        _ => pre,
    }
}

/// Law: after the pipeline returns — success or error — a detach has been
/// requested exactly once if the loopback attach ever succeeded, and never
/// otherwise. No loopback mount the run created is left unreleased, and a
/// detach is never requested twice.
pub proof fn lemma_detach_exactly_once(p: Pipeline)
    requires
        p.wf(),
        p.is_terminal(),
    ensures
        p.attach_ok ==> p.detach_requests == 1,
        !p.attach_ok ==> p.detach_requests == 0,
{
}

/// Law: on any failure, the final rename was never requested — so no file
/// appears at the output path, and a pre-existing file there is untouched —
/// unless the rename itself was the failing step, and a failed rename leaves
/// the destination as it was.
pub proof fn lemma_no_output_on_failure(p: Pipeline)
    requires
        p.wf(),
        p.state is Failed,
    ensures
        !(p.error matches Some(DmgError::RenameFailure { .. })) ==> p.finalize_requests == 0,
        p.finalize_requests <= 1,
{
}

/// Law: a finalized run performed every step: one size per entry was
/// received, every manifest entry was copied, the custom-icon attribute was
/// set, the image was detached exactly once and renamed exactly once, no
/// error is recorded, and the image's capacity is the exact ceiling estimate
/// of the summed entry sizes — in particular it holds the byte total.
pub proof fn lemma_finalized_complete(p: Pipeline)
    requires
        p.wf(),
        p.state is Finalized,
    ensures
        p.sizes@.len() == p.entries@.len(),
        p.next_copy == p.entries@.len(),
        p.attach_ok && p.attribute_ok,
        p.detach_requests == 1,
        p.finalize_requests == 1,
        p.error is None && p.cleanup_error is None,
        p.capacity_mb == spec_capacity_mb(spec_total_bytes(p.sizes@)),
        p.capacity_mb * BYTES_PER_MB >= spec_total_bytes(p.sizes@),
{
    estimate::lemma_total_bytes_nonneg(p.sizes@);
    estimate::lemma_capacity_is_ceiling(spec_total_bytes(p.sizes@));
}

/// Law: the allocator is never asked for an empty image. The manifest holds
/// at least one entry and each entry contributes the per-entry overhead, so
/// the derived capacity is at least one megabyte.
pub proof fn lemma_capacity_positive(p: Pipeline)
    requires
        p.wf(),
        p.state is SizeEstimated,
    ensures
        p.spec_next_action() == (Action::Allocate { capacity_mb: p.capacity_mb }),
        p.capacity_mb >= 1,
{
    estimate::lemma_total_bytes_positive(p.sizes@);
    estimate::lemma_capacity_is_ceiling(spec_total_bytes(p.sizes@));
}

/// Law: a failing cleanup detach is reported beside the original root cause,
/// never in its place.
pub proof fn lemma_cleanup_failure_preserves_cause(p: Pipeline, d: String)
    requires
        p.state is ErrorDetaching,
    ensures
        spec_step(p, Event::DetachFailed { diagnostic: d }).error == p.error,
        spec_step(p, Event::DetachFailed { diagnostic: d }).cleanup_error == Some(d),
{
}

/// The pipeline after a whole sequence of events.
pub open spec fn spec_run(p: Pipeline, evs: Seq<Event>) -> Pipeline
    decreases evs.len(),
{
    if evs.len() == 0 {
        p
    } else {
        spec_run(spec_step(p, evs[0]), evs.drop_first())
    }
}

/// The actions a run requests: one before each event, and the one pending
/// after the last event.
pub open spec fn spec_actions(p: Pipeline, evs: Seq<Event>) -> Seq<Action>
    decreases evs.len(),
{
    if evs.len() == 0 {
        seq![p.spec_next_action()]
    } else {
        seq![p.spec_next_action()] + spec_actions(spec_step(p, evs[0]), evs.drop_first())
    }
}

/// Concatenated event sequences run in order.
pub proof fn lemma_run_append(p: Pipeline, evs1: Seq<Event>, evs2: Seq<Event>)
    ensures
        spec_run(p, evs1 + evs2) == spec_run(spec_run(p, evs1), evs2),
    decreases evs1.len(),
{
    if evs1.len() == 0 {
        assert(evs1 + evs2 =~= evs2);
    } else {
        assert((evs1 + evs2).drop_first() =~= evs1.drop_first() + evs2);
        assert((evs1 + evs2)[0] == evs1[0]);
        lemma_run_append(spec_step(p, evs1[0]), evs1.drop_first(), evs2);
    }
}

/// One `SizeOutput` event per size-query output, in order.
pub open spec fn size_events(outputs: Seq<Vec<u8>>) -> Seq<Event> {
    outputs.map_values(|o: Vec<u8>| Event::SizeOutput { output: o })
}

/// The sizes a sequence of parseable size-query outputs reports.
pub open spec fn parsed_sizes(outputs: Seq<Vec<u8>>) -> Seq<u64> {
    outputs.map_values(|o: Vec<u8>| parse::du_parse(o@)->Some_0 as u64)
}

/// `n` successful copy outcomes.
pub open spec fn copy_events(n: int) -> Seq<Event> {
    Seq::new(n as nat, |i: int| Event::CopyDone)
}

/// The success outcomes of every step after size estimation, for a manifest
/// of `n` entries.
pub open spec fn success_tail(n: int) -> Seq<Event> {
    seq![Event::AllocateDone, Event::FormatDone, Event::AttachDone] + copy_events(n) + seq![
        Event::AttributeDone,
        Event::DetachDone,
        Event::RenameDone,
    ]
}

/// Receiving every remaining size, each parseable and with a fitting total,
/// moves a starting pipeline to `SizeEstimated`.
proof fn lemma_size_phase(p: Pipeline, outputs: Seq<Vec<u8>>)
    requires
        p.wf(),
        p.state is Start,
        outputs.len() == p.entries@.len() - p.sizes@.len(),
        forall|i: int| 0 <= i < outputs.len() ==> parse::du_parse(outputs[i]@) is Some,
        spec_total_bytes(p.sizes@ + parsed_sizes(outputs)) <= u64::MAX,
    ensures
        ({
            let q = spec_run(p, size_events(outputs));
            &&& q.wf()
            &&& q.state is SizeEstimated
            &&& q.entries == p.entries
            &&& q.label == p.label
            &&& q.sizes@ == p.sizes@ + parsed_sizes(outputs)
        }),
    decreases outputs.len(),
{
    broadcast use vstd::std_specs::vec::axiom_spec_len;

    assert(p.entries.len() == p.entries@.len());
    let o0 = outputs[0];
    let v = parse::du_parse(o0@)->Some_0;
    parse::lemma_du_parse_in_range(o0@, 0);
    let sizes1 = p.sizes@.push(v as u64);
    let all = p.sizes@ + parsed_sizes(outputs);

    // The running total plus this size stays within the final total.
    estimate::lemma_total_bytes_concat(p.sizes@, parsed_sizes(outputs));
    assert(parsed_sizes(outputs) =~= seq![v as u64] + parsed_sizes(outputs).drop_first());
    estimate::lemma_total_bytes_concat(seq![v as u64], parsed_sizes(outputs).drop_first());
    assert(seq![v as u64].drop_last() =~= Seq::<u64>::empty());
    assert(spec_total_bytes(Seq::<u64>::empty()) == 0);
    assert(spec_total_bytes(seq![v as u64]) == v + ENTRY_OVERHEAD);
    estimate::lemma_total_bytes_nonneg(parsed_sizes(outputs).drop_first());
    assert(p.total_bytes + v + ENTRY_OVERHEAD <= u64::MAX);

    let q1 = spec_step(p, Event::SizeOutput { output: o0 });
    estimate::lemma_total_bytes_push(p.sizes@, v as u64);

    assert(size_events(outputs)[0] == (Event::SizeOutput { output: o0 }));
    assert(size_events(outputs).drop_first() =~= size_events(outputs.drop_first()));

    if outputs.len() == 1 {
        assert(q1.state is SizeEstimated);
        assert(q1.sizes@ == sizes1);
        assert(sizes1 =~= all);
        estimate::lemma_capacity_fits(spec_total_bytes(sizes1));
        assert(q1.wf());
        assert(spec_run(q1, size_events(outputs.drop_first())) == q1) by {
            assert(size_events(outputs.drop_first()).len() == 0);
        }
    } else {
        assert(q1.state is Start);
        assert(q1.sizes@ == sizes1);
        assert(q1.wf());
        assert forall|i: int| 0 <= i < outputs.drop_first().len() implies parse::du_parse(
            outputs.drop_first()[i]@,
        ) is Some by {
            assert(outputs.drop_first()[i] == outputs[i + 1]);
        }
        assert(sizes1 + parsed_sizes(outputs.drop_first()) =~= all);
        lemma_size_phase(q1, outputs.drop_first());
    }
}

/// Successfully copying every remaining entry moves a mounted pipeline to
/// `Populated`.
proof fn lemma_copy_phase(p: Pipeline, n: int)
    requires
        p.wf(),
        p.state is Mounted,
        n == p.entries@.len() - p.next_copy,
    ensures
        ({
            let q = spec_run(p, copy_events(n));
            &&& q.wf()
            &&& q.state is Populated
            &&& q.entries == p.entries
            &&& q.label == p.label
            &&& q.sizes == p.sizes
            &&& q.capacity_mb == p.capacity_mb
        }),
    decreases n,
{
    broadcast use vstd::std_specs::vec::axiom_spec_len;

    assert(p.entries.len() == p.entries@.len());
    let q1 = spec_step(p, Event::CopyDone);
    assert(copy_events(n)[0] == Event::CopyDone);
    assert(copy_events(n).drop_first() =~= copy_events(n - 1));
    if n == 1 {
        assert(q1.state is Populated);
        assert(q1.wf());
        assert(spec_run(q1, copy_events(0)) == q1);
    } else {
        assert(q1.state is Mounted);
        assert(q1.wf());
        lemma_copy_phase(q1, n - 1);
    }
}

/// Law (success is owed): if every external operation succeeds — each
/// size-query output holds a parseable size, the byte total fits in a `u64`,
/// and every later step reports success — the run finalizes. Together with
/// the per-event transition function this pins down the machine: it fails
/// only when an external operation fails.
pub proof fn lemma_all_success_finalizes(
    entries: Vec<ManifestEntry>,
    label: String,
    outputs: Seq<Vec<u8>>,
)
    requires
        entries@.len() >= 1,
        outputs.len() == entries@.len(),
        forall|i: int| 0 <= i < outputs.len() ==> parse::du_parse(outputs[i]@) is Some,
        spec_total_bytes(parsed_sizes(outputs)) <= u64::MAX,
    ensures
        ({
            let q = spec_run(
                spec_new(entries, label),
                size_events(outputs) + success_tail(entries@.len() as int),
            );
            &&& q.state is Finalized
            &&& q.wf()
            &&& q.sizes@ == parsed_sizes(outputs)
        }),
{
    let n = entries@.len() as int;
    let p0 = spec_new(entries, label);
    assert(p0.wf());
    lemma_run_append(p0, size_events(outputs), success_tail(n));
    assert(p0.sizes@ + parsed_sizes(outputs) =~= parsed_sizes(outputs));
    lemma_size_phase(p0, outputs);
    let p1 = spec_run(p0, size_events(outputs));

    let head = seq![Event::AllocateDone, Event::FormatDone, Event::AttachDone];
    let last = seq![Event::AttributeDone, Event::DetachDone, Event::RenameDone];
    assert(success_tail(n) =~= head + (copy_events(n) + last));
    lemma_run_append(p1, head, copy_events(n) + last);

    // Allocation, formatting and attach succeed in turn.
    let a1 = spec_step(p1, Event::AllocateDone);
    let a2 = spec_step(a1, Event::FormatDone);
    let a3 = spec_step(a2, Event::AttachDone);
    assert(a1.state is Allocated && a1.wf());
    assert(a2.state is Formatted && a2.wf());
    assert(a3.state is Mounted && a3.wf());
    assert(spec_run(p1, head) == spec_run(a1, head.drop_first()));
    assert(spec_run(a1, head.drop_first()) == spec_run(a2, seq![Event::AttachDone])) by {
        assert(head.drop_first() =~= seq![Event::FormatDone, Event::AttachDone]);
        assert(head.drop_first().drop_first() =~= seq![Event::AttachDone]);
    }
    assert(spec_run(a2, seq![Event::AttachDone]) == spec_run(a3, Seq::<Event>::empty())) by {
        assert(seq![Event::AttachDone].drop_first() =~= Seq::<Event>::empty());
    }
    let p2 = spec_run(p1, head);
    assert(p2 == a3);

    lemma_run_append(p2, copy_events(n), last);
    lemma_copy_phase(p2, n);
    let p3 = spec_run(p2, copy_events(n));

    // Tagging, detach and the final rename succeed in turn.
    let b1 = spec_step(p3, Event::AttributeDone);
    let b2 = spec_step(b1, Event::DetachDone);
    let b3 = spec_step(b2, Event::RenameDone);
    assert(b1.state is Tagged && b1.wf());
    assert(b2.state is Detached && b2.wf());
    assert(b3.state is Finalized && b3.wf());
    assert(spec_run(p3, last) == spec_run(b1, last.drop_first()));
    assert(spec_run(b1, last.drop_first()) == spec_run(b2, seq![Event::RenameDone])) by {
        assert(last.drop_first() =~= seq![Event::DetachDone, Event::RenameDone]);
        assert(last.drop_first().drop_first() =~= seq![Event::RenameDone]);
    }
    assert(spec_run(b2, seq![Event::RenameDone]) == spec_run(b3, Seq::<Event>::empty())) by {
        assert(seq![Event::RenameDone].drop_first() =~= Seq::<Event>::empty());
    }
    let p4 = spec_run(p3, last);
    assert(p4 == b3);
}

/// Law (idempotence under retry): the machine is a function of its inputs
/// and the reported outcomes alone. Two runs built from identical manifests
/// and labels that receive identical event sequences request identical
/// action sequences — in particular they allocate, format, copy and finalize
/// identically — and end in identical states.
pub proof fn lemma_run_deterministic(p1: Pipeline, p2: Pipeline, evs1: Seq<Event>, evs2: Seq<Event>)
    requires
        p1 == p2,
        evs1 == evs2,
    ensures
        spec_run(p1, evs1) == spec_run(p2, evs2),
        spec_actions(p1, evs1) == spec_actions(p2, evs2),
{
}

} // verus!
