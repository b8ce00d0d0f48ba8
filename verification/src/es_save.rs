//! The Elasticsearch sink: what is sent to the index, in which order, and
//! when the sending stops.

use vstd::prelude::*;
use vstd::string::*;
use crate::log_entry::LogEntry;
use crate::log_processor_options::LogProcessorOptions;

verus! {

/// How many records one bulk request holds at most.
pub const BULK_BATCH_SIZE: usize = 1000;

/// The body of the request that deletes every document of an index.
pub const DELETE_ALL_BODY: &'static str = "{\"query\":{\"match_all\":{}}}";

/// Saves the records to one index.
#[derive(Debug, PartialEq)]
pub struct ESSaveStrategy {
    pub index: String,
    pub truncate_on_save: bool,
}

/// Where the saving of a sequence of records stands.
#[derive(Clone, Copy, Debug, PartialEq, Eq, Structural)]
pub enum SaveStage {
    /// Nothing was sent yet.
    Idle,
    /// The request that empties the index is under way.
    Truncating,
    /// The bulk request for the records before `end` is under way.
    Sending { end: usize },
    /// Every record was sent, or a request failed; nothing more is sent.
    Closed,
}

/// The state of the sink: the stage, and how many records there are to save.
#[derive(Clone, Copy, Debug, PartialEq, Eq, Structural)]
pub struct SaveState {
    pub stage: SaveStage,
    pub total: usize,
}

impl SaveState {
    /// Whether the state is one that a saving can be in: a batch under way
    /// is not empty and ends at or before the last record.
    pub open spec fn wf(self) -> bool {
        match self.stage {
            SaveStage::Sending { end } => 0 < end <= self.total,
            _ => true,
        }
    }
}

/// What happened to the sink.
#[derive(Debug, PartialEq)]
pub enum SaveEvent {
    /// The saving of `total` records begins.
    Start { total: usize },
    /// The request under way was answered, whatever the answer says.
    Delivered,
    /// The request under way could not be sent or its answer not be read.
    Fault(String),
}

/// What the sink does next.
#[derive(Debug, PartialEq)]
pub enum SaveAction {
    /// Delete every document of the index.
    DeleteAll,
    /// Create the records `start..end` in one bulk request, each under its
    /// timestamp as the document id.
    Bulk { start: usize, end: usize },
    /// Stop, with the result of the saving.
    Stop(Result<(), String>),
}

/// Where the batch that begins at `start` ends.
pub open spec fn batch_end(start: usize, total: usize) -> usize {
    if total - start <= BULK_BATCH_SIZE {
        total
    } else {
        (start + BULK_BATCH_SIZE) as usize
    }
}

/// The state and the action once the records before `start` are sent: the
/// next batch, or the end of the saving.
pub open spec fn send_from(start: usize, total: usize) -> (SaveState, SaveAction) {
    if start >= total {
        (SaveState { stage: SaveStage::Closed, total }, SaveAction::Stop(Ok(())))
    } else {
        (
            SaveState { stage: SaveStage::Sending { end: batch_end(start, total) }, total },
            SaveAction::Bulk { start, end: batch_end(start, total) },
        )
    }
}

/// What is answered to an event that the stage does not expect.
pub const OUT_OF_TURN_ERROR: &'static str = "event out of turn";

/// Whether the event is one that the stage expects.
pub open spec fn in_turn(stage: SaveStage, event: SaveEvent) -> bool {
    match (stage, event) {
        (SaveStage::Idle, SaveEvent::Start { .. }) => true,
        (SaveStage::Truncating, SaveEvent::Delivered) => true,
        (SaveStage::Truncating, SaveEvent::Fault(_)) => true,
        (SaveStage::Sending { .. }, SaveEvent::Delivered) => true,
        (SaveStage::Sending { .. }, SaveEvent::Fault(_)) => true,
        _ => false,
    }
}

/// The next state and action of a sink that empties the index first if
/// `truncate` holds. A fault stops the saving with its reason; an answer is
/// never looked into.
pub open spec fn save_step(truncate: bool, state: SaveState, event: SaveEvent) -> (
    SaveState,
    SaveAction,
)
    recommends
        in_turn(state.stage, event),
{
    match (state.stage, event) {
        (SaveStage::Idle, SaveEvent::Start { total }) => if truncate {
            (SaveState { stage: SaveStage::Truncating, total }, SaveAction::DeleteAll)
        } else {
            send_from(0, total)
        },
        (SaveStage::Truncating, SaveEvent::Delivered) => send_from(0, state.total),
        (SaveStage::Sending { end }, SaveEvent::Delivered) => send_from(end, state.total),
        (_, SaveEvent::Fault(reason)) => (
            SaveState { stage: SaveStage::Closed, total: state.total },
            SaveAction::Stop(Err(reason)),
        ),
        _ => (state, SaveAction::Stop(Ok(()))),
    }
}

/// The batches that are sent for the records from `start` on, in their
/// order.
pub open spec fn batches_from(start: usize, total: usize) -> Seq<(usize, usize)>
    decreases total - start,
{
    if start >= total {
        Seq::empty()
    } else {
        seq![(start, batch_end(start, total))] + batches_from(batch_end(start, total), total)
    }
}

impl ESSaveStrategy {
    /// The sink for the index `index`, which is emptied first where the
    /// options say so.
    pub fn create_from_options(index: String, option: LogProcessorOptions) -> (made: Result<
        Self,
        String,
    >)
        ensures
            made == Ok::<Self, String>(
                ESSaveStrategy { index, truncate_on_save: option.truncate_on_save },
            ),
    {
        Ok(ESSaveStrategy { index, truncate_on_save: option.truncate_on_save })
    }

    /// The state of a sink that has sent nothing.
    pub fn idle() -> (state: SaveState)
        ensures
            state == (SaveState { stage: SaveStage::Idle, total: 0 }),
    {
        SaveState { stage: SaveStage::Idle, total: 0 }
    }

    /// The id that a record is created under: its timestamp, as it stands.
    pub fn document_id(entry: &LogEntry) -> (id: String)
        ensures
            id == entry.timestamp,
    {
        entry.timestamp.clone()
    }

    /// The state and the action once the records before `start` are sent.
    fn send_next(start: usize, total: usize) -> (next: (SaveState, SaveAction))
        ensures
            next == send_from(start, total),
    {
        if start >= total {
            (SaveState { stage: SaveStage::Closed, total }, SaveAction::Stop(Ok(())))
        } else {
            let end: usize = if total - start <= BULK_BATCH_SIZE {
                total
            } else {
                start + BULK_BATCH_SIZE
            };
            (
                SaveState { stage: SaveStage::Sending { end }, total },
                SaveAction::Bulk { start, end },
            )
        }
    }

    /// The next state and action of the sink. The index is emptied first
    /// where the sink says so; the records then go out in batches, one after
    /// the other and in their order; the first fault stops the saving with
    /// its reason, and no answer is ever looked into. An event that the
    /// stage does not expect stops the saving with an error.
    pub fn step(&self, state: SaveState, event: SaveEvent) -> (next: (SaveState, SaveAction))
        ensures
            in_turn(state.stage, event) ==> next == save_step(self.truncate_on_save, state, event),
            !in_turn(state.stage, event) ==> ({
                &&& next.0 == (SaveState { stage: SaveStage::Closed, total: state.total })
                &&& next.1 matches SaveAction::Stop(Err(e)) && e@ == OUT_OF_TURN_ERROR@
            }),
            state.wf() ==> next.0.wf(),
            next.1 matches SaveAction::Bulk { start, end } ==> start < end <= next.0.total && end
                - start <= BULK_BATCH_SIZE,
    {
        match (state.stage, event) {
            (SaveStage::Idle, SaveEvent::Start { total }) => {
                if self.truncate_on_save {
                    (SaveState { stage: SaveStage::Truncating, total }, SaveAction::DeleteAll)
                } else {
                    Self::send_next(0, total)
                }
            },
            (SaveStage::Truncating, SaveEvent::Delivered) => Self::send_next(0, state.total),
            (SaveStage::Sending { end }, SaveEvent::Delivered) => Self::send_next(
                end,
                state.total,
            ),
            (SaveStage::Truncating, SaveEvent::Fault(reason)) => (
                SaveState { stage: SaveStage::Closed, total: state.total },
                SaveAction::Stop(Err(reason)),
            ),
            (SaveStage::Sending { end }, SaveEvent::Fault(reason)) => (
                SaveState { stage: SaveStage::Closed, total: state.total },
                SaveAction::Stop(Err(reason)),
            ),
            _ => (
                SaveState { stage: SaveStage::Closed, total: state.total },
                SaveAction::Stop(Err(String::from_str(OUT_OF_TURN_ERROR))),
            ),
        }
    }
}

/// The batches of a saving lie one after the other from `start` to the
/// last record; none is empty, none holds more than the batch size, and
/// every one but the last holds exactly that many.
pub proof fn lemma_batches_partition(start: usize, total: usize)
    requires
        start <= total,
    ensures
        forall|i: int|
            0 <= i < batches_from(start, total).len() ==> {
                let batch = #[trigger] batches_from(start, total)[i];
                &&& batch.0 < batch.1 <= total
                &&& batch.1 - batch.0 <= BULK_BATCH_SIZE
                &&& batch.0 == if i == 0 {
                    start
                } else {
                    batches_from(start, total)[i - 1].1
                }
                &&& i + 1 < batches_from(start, total).len() ==> batch.1 - batch.0
                    == BULK_BATCH_SIZE
            },
        start < total ==> batches_from(start, total).len() > 0 && batches_from(
            start,
            total,
        ).last().1 == total,
        start == total ==> batches_from(start, total).len() == 0,
    decreases total - start,
{
    if start < total {
        let end = batch_end(start, total);
        lemma_batches_partition(end, total);
        let rest = batches_from(end, total);
        let all = batches_from(start, total);
        assert(all =~= seq![(start, end)] + rest);
        assert forall|i: int| 0 <= i < all.len() implies {
            let batch = #[trigger] all[i];
            &&& batch.0 < batch.1 <= total
            &&& batch.1 - batch.0 <= BULK_BATCH_SIZE
            &&& batch.0 == if i == 0 {
                start
            } else {
                all[i - 1].1
            }
            &&& i + 1 < all.len() ==> batch.1 - batch.0 == BULK_BATCH_SIZE
        } by {
            if i > 0 {
                assert(all[i] == rest[i - 1]);
                if i > 1 {
                    assert(all[i - 1] == rest[i - 2]);
                }
            }
        }
    }
}

/// While every request is answered, the sink sends the batches of
/// `batches_from` one by one: after the batch that ends at `end` it sends
/// the batch that comes first from `end` on, and it stops when none is left.
pub proof fn lemma_step_follows_batches(truncate: bool, end: usize, total: usize)
    requires
        end <= total,
    ensures
        ({
            let next = save_step(
                truncate,
                SaveState { stage: SaveStage::Sending { end }, total },
                SaveEvent::Delivered,
            );
            if end == total {
                next.1 == SaveAction::Stop(Ok(()))
            } else {
                &&& batches_from(end, total).len() > 0
                &&& next.1 == (SaveAction::Bulk {
                    start: batches_from(end, total)[0].0,
                    end: batches_from(end, total)[0].1,
                })
                &&& next.0.stage == (SaveStage::Sending { end: batches_from(end, total)[0].1 })
            }
        }),
{
}

} // verus!
