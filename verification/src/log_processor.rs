//! The run: which source, sink and renderer the options select, and the
//! order in which a run calls on them.

use vstd::prelude::*;
use vstd::string::*;
use crate::command::Cli;
use crate::count_output::CountOutputStrategy;
use crate::date_filter::{date_window, DATE_FILTER_ERROR};
use crate::es_get::ESGetStrategy;
use crate::es_save::ESSaveStrategy;
use crate::file_get::FileGetStrategy;
use crate::file_save::FileSaveStrategy;
use crate::json_output::JsonOutputStrategy;
use crate::json_pretty_output::JsonPrettyOutputStrategy;
use crate::log_entry::{block_text, LogEntry};
use crate::log_processor_options::{
    answers_cli, chosen_input, resolved, LogInput, LogOutput, LogProcessorOptions, LogSave,
    MISSING_INPUT_ERROR,
};
use crate::pipeline::views;
use crate::summary_output::{date_range_text, method_counts, Summary, SummaryOutputStrategy};
use crate::url_get::UrlGetStrategy;

verus! {

/// What an event that the stage does not expect is answered with.
pub const RUN_OUT_OF_TURN_ERROR: &'static str = "event out of turn";

/// What the error of a source is prefixed with.
pub const GET_ERROR_PREFIX: &'static str = "Failed Get Logs: ";

/// The source of a run.
#[derive(Debug, PartialEq)]
pub enum GetStrategy {
    File(FileGetStrategy),
    Url(UrlGetStrategy),
    Es(ESGetStrategy),
}

/// The sink of a run.
#[derive(Debug, PartialEq)]
pub enum SaveStrategy {
    File(FileSaveStrategy),
    Es(ESSaveStrategy),
}

/// The renderer of a run.
#[derive(Clone, Copy, Debug, PartialEq, Eq, Structural)]
pub enum OutputStrategy {
    Json(JsonOutputStrategy),
    PrettyJson(JsonPrettyOutputStrategy),
    Count(CountOutputStrategy),
    Summary(SummaryOutputStrategy),
}

/// What a renderer shows.
#[derive(Debug, PartialEq)]
pub enum Rendering {
    /// The sequence itself, as one compact JSON array.
    CompactJson,
    /// One block of text for each record.
    Blocks(Vec<String>),
    /// The number of records.
    Count(usize),
    /// The summary of the records.
    Summary(Summary),
}

/// One run: a source, at most one sink, at most one renderer.
#[derive(Debug, PartialEq)]
pub struct LogProcessor {
    pub get_impl: GetStrategy,
    pub save_impl: Option<SaveStrategy>,
    pub output_impl: Option<OutputStrategy>,
}

/// Makes the run that a command line or its options describe.
pub struct LogProcessorFactory {}

/// Where a run stands.
#[derive(Clone, Copy, Debug, PartialEq, Eq, Structural)]
pub enum RunStage {
    /// Nothing was done yet.
    Ready,
    /// The source is at work.
    Getting,
    /// The sink is at work.
    Saving,
    /// The renderer is at work.
    Rendering,
    /// The run is over.
    Finished,
}

/// The state of a run: the stage, and the records that the source gave.
#[derive(Debug, PartialEq)]
pub struct RunState {
    pub stage: RunStage,
    pub logs: Vec<LogEntry>,
}

/// What happened in a run.
#[derive(Debug, PartialEq)]
pub enum RunEvent {
    /// The run begins.
    Start,
    /// The source gave its records, or failed.
    Got(Result<Vec<LogEntry>, String>),
    /// The sink saved the records, or failed.
    Saved(Result<(), String>),
    /// The renderer showed the records, or failed.
    Shown(Result<(), String>),
}

/// What a run does next.
#[derive(Debug, PartialEq)]
pub enum RunAction {
    /// Call on the source.
    Get,
    /// Hand the records of the state to the sink.
    Save,
    /// Hand the records of the state to the renderer.
    Output,
    /// Stop, with the result of the run.
    Stop(Result<(), String>),
}

/// The source that the options select.
pub open spec fn source_for(option: LogProcessorOptions) -> GetStrategy {
    match option.input {
        LogInput::File(path) => GetStrategy::File(
            FileGetStrategy {
                path,
                reverse: option.reverse,
                limit: option.limit,
                level_filter: option.level_filter,
                date_filter_string: option.date_filter_string,
                date_filter: option.date_filter,
            },
        ),
        LogInput::Url(url) => GetStrategy::Url(
            UrlGetStrategy {
                url,
                reverse: option.reverse,
                limit: option.limit,
                date_filter_string: option.date_filter_string,
                date_filter: option.date_filter,
                level_filter: option.level_filter,
            },
        ),
        LogInput::EsIndex(index) => GetStrategy::Es(
            ESGetStrategy {
                index,
                reverse: option.reverse,
                limit: option.limit,
                date_filter_string: option.date_filter_string,
                date_filter: option.date_filter,
                level_filter: option.level_filter,
            },
        ),
    }
}

/// The sink that the options select, if they select one.
pub open spec fn sink_for(option: LogProcessorOptions) -> Option<SaveStrategy> {
    match option.save {
        LogSave::File(path) => Some(
            SaveStrategy::File(
                FileSaveStrategy { path, truncate_on_save: option.truncate_on_save },
            ),
        ),
        LogSave::EsIndex(index) => Some(
            SaveStrategy::Es(ESSaveStrategy { index, truncate_on_save: option.truncate_on_save }),
        ),
        LogSave::Unset => None,
    }
}

/// The renderer that the options select, if they select one.
pub open spec fn renderer_for(output: LogOutput) -> Option<OutputStrategy> {
    match output {
        LogOutput::Json => Some(OutputStrategy::Json(JsonOutputStrategy)),
        LogOutput::PrettyJson => Some(OutputStrategy::PrettyJson(JsonPrettyOutputStrategy)),
        LogOutput::Count => Some(OutputStrategy::Count(CountOutputStrategy)),
        LogOutput::Summary => Some(OutputStrategy::Summary(SummaryOutputStrategy)),
        LogOutput::Unset => None,
    }
}

/// The run that the options describe.
pub open spec fn processor_for(option: LogProcessorOptions) -> LogProcessor {
    LogProcessor {
        get_impl: source_for(option),
        save_impl: sink_for(option),
        output_impl: renderer_for(option.output),
    }
}

/// Whether `outcome` is the answer to a command line when the local clock
/// reads `now` seconds: the run that its options describe, or the error that
/// resolving the options gives.
pub open spec fn answers_run(cli: Cli, now: i64, outcome: Result<LogProcessor, String>) -> bool {
    match chosen_input(cli) {
        None => outcome matches Err(e) && e@ == MISSING_INPUT_ERROR@,
        Some(input) => match cli.date_filter {
            Some(filter) => match date_window(filter@, now) {
                Some(window) => outcome == Ok::<LogProcessor, String>(
                    processor_for(resolved(cli, input, Some(window))),
                ),
                None => outcome matches Err(e) && e@ == DATE_FILTER_ERROR@,
            },
            None => outcome == Ok::<LogProcessor, String>(
                processor_for(resolved(cli, input, None)),
            ),
        },
    }
}

/// The stage and the action of a run whose source has given its records:
/// the sink where there is one, else the renderer where there is one, else
/// the end.
pub open spec fn after_get(processor: LogProcessor) -> (RunStage, RunAction) {
    if processor.save_impl is Some {
        (RunStage::Saving, RunAction::Save)
    } else {
        after_save(processor)
    }
}

/// The stage and the action of a run whose sink has saved the records: the
/// renderer where there is one, else the end.
pub open spec fn after_save(processor: LogProcessor) -> (RunStage, RunAction) {
    if processor.output_impl is Some {
        (RunStage::Rendering, RunAction::Output)
    } else {
        (RunStage::Finished, RunAction::Stop(Ok(())))
    }
}

/// Whether `next` is the step of a run from `state` on `event`.
///
/// A run calls on the source first. Where the source fails, the run stops
/// with its error behind a prefix, and neither sink nor renderer is called
/// on. Else the state takes the records, and keeps them as they are to the
/// end: the sink gets them first, where there is one; where it fails, the
/// run stops with its error and the renderer is not called on; else the
/// renderer gets the same records, where there is one. An event that the
/// stage does not expect stops the run with an error.
pub open spec fn is_run_step(
    processor: LogProcessor,
    state: RunState,
    event: RunEvent,
    next: (RunState, RunAction),
) -> bool {
    match (state.stage, event) {
        (RunStage::Ready, RunEvent::Start) => {
            &&& next.0.stage == RunStage::Getting
            &&& next.0.logs == state.logs
            &&& next.1 == RunAction::Get
        },
        (RunStage::Getting, RunEvent::Got(Ok(logs))) => {
            &&& next.0.logs == logs
            &&& (next.0.stage, next.1) == after_get(processor)
        },
        (RunStage::Getting, RunEvent::Got(Err(reason))) => {
            &&& next.0.stage == RunStage::Finished
            &&& next.0.logs == state.logs
            &&& next.1 matches RunAction::Stop(Err(e)) && e@ == GET_ERROR_PREFIX@ + reason@
        },
        (RunStage::Saving, RunEvent::Saved(Ok(()))) => {
            &&& next.0.logs == state.logs
            &&& (next.0.stage, next.1) == after_save(processor)
        },
        (RunStage::Saving, RunEvent::Saved(Err(reason))) => {
            &&& next.0.stage == RunStage::Finished
            &&& next.0.logs == state.logs
            &&& next.1 == RunAction::Stop(Err(reason))
        },
        (RunStage::Rendering, RunEvent::Shown(result)) => {
            &&& next.0.stage == RunStage::Finished
            &&& next.0.logs == state.logs
            &&& next.1 == RunAction::Stop(result)
        },
        _ => {
            &&& next.0.stage == RunStage::Finished
            &&& next.0.logs == state.logs
            &&& next.1 matches RunAction::Stop(Err(e)) && e@ == RUN_OUT_OF_TURN_ERROR@
        },
    }
}

impl OutputStrategy {
    /// What the renderer shows of the records, as they stand.
    pub fn output(&self, logs: &Vec<LogEntry>) -> (shown: Rendering)
        ensures
            match *self {
                OutputStrategy::Json(_) => shown is CompactJson,
                OutputStrategy::PrettyJson(_) => shown matches Rendering::Blocks(blocks)
                    && blocks@.len() == logs@.len() && forall|i: int|
                    0 <= i < logs@.len() ==> (#[trigger] blocks@[i])@ == block_text(logs@[i]@),
                OutputStrategy::Count(_) => shown matches Rendering::Count(count) && count
                    == logs@.len(),
                OutputStrategy::Summary(_) => shown matches Rendering::Summary(summary)
                    && summary.count == logs@.len() && summary.date_range@ == date_range_text(
                    views(logs@),
                ) && summary.http_method@ == method_counts(views(logs@)),
            },
    {
        match self {
            OutputStrategy::Json(_) => Rendering::CompactJson,
            OutputStrategy::PrettyJson(renderer) => Rendering::Blocks(renderer.output(logs)),
            OutputStrategy::Count(renderer) => Rendering::Count(renderer.output(logs)),
            OutputStrategy::Summary(renderer) => Rendering::Summary(renderer.output(logs)),
        }
    }
}

impl LogProcessor {
    /// The state of a run that has not begun.
    pub fn ready() -> (state: RunState)
        ensures
            state.stage == RunStage::Ready,
            state.logs@.len() == 0,
    {
        RunState { stage: RunStage::Ready, logs: Vec::new() }
    }

    /// The stage and the action after the sink.
    fn past_save(&self) -> (next: (RunStage, RunAction))
        ensures
            next == after_save(*self),
    {
        if self.output_impl.is_some() {
            (RunStage::Rendering, RunAction::Output)
        } else {
            (RunStage::Finished, RunAction::Stop(Ok(())))
        }
    }

    /// The stage and the action after the source.
    fn past_get(&self) -> (next: (RunStage, RunAction))
        ensures
            next == after_get(*self),
    {
        if self.save_impl.is_some() {
            (RunStage::Saving, RunAction::Save)
        } else {
            self.past_save()
        }
    }

    /// One step of the run: the state and the action that follow from the
    /// state so far and from what happened.
    pub fn run(&self, state: RunState, event: RunEvent) -> (next: (RunState, RunAction))
        ensures
            is_run_step(*self, state, event, next),
    {
        match (state.stage, event) {
            (RunStage::Ready, RunEvent::Start) => (
                RunState { stage: RunStage::Getting, logs: state.logs },
                RunAction::Get,
            ),
            (RunStage::Getting, RunEvent::Got(Ok(logs))) => {
                let (stage, action) = self.past_get();
                (RunState { stage, logs }, action)
            },
            (RunStage::Getting, RunEvent::Got(Err(reason))) => {
                let mut message = String::from_str(GET_ERROR_PREFIX);
                message.append(reason.as_str());
                (
                    RunState { stage: RunStage::Finished, logs: state.logs },
                    RunAction::Stop(Err(message)),
                )
            },
            (RunStage::Saving, RunEvent::Saved(Ok(()))) => {
                let (stage, action) = self.past_save();
                (RunState { stage, logs: state.logs }, action)
            },
            (RunStage::Saving, RunEvent::Saved(Err(reason))) => (
                RunState { stage: RunStage::Finished, logs: state.logs },
                RunAction::Stop(Err(reason)),
            ),
            (RunStage::Rendering, RunEvent::Shown(result)) => (
                RunState { stage: RunStage::Finished, logs: state.logs },
                RunAction::Stop(result),
            ),
            _ => (
                RunState { stage: RunStage::Finished, logs: state.logs },
                RunAction::Stop(Err(String::from_str(RUN_OUT_OF_TURN_ERROR))),
            ),
        }
    }
}

impl LogProcessorFactory {
    /// The run that the options describe: the source of their input, the
    /// sink of their save, the renderer of their output.
    pub fn from_options(option: LogProcessorOptions) -> (made: Result<LogProcessor, String>)
        ensures
            made == Ok::<LogProcessor, String>(processor_for(option)),
    {
        let get_impl = match &option.input {
            LogInput::File(path) => match FileGetStrategy::create(
                path.clone(),
                option.duplicate(),
            ) {
                Ok(source) => GetStrategy::File(source),
                Err(e) => {
                    return Err(e);
                },
            },
            LogInput::Url(url) => match UrlGetStrategy::create(url.clone(), option.duplicate()) {
                Ok(source) => GetStrategy::Url(source),
                Err(e) => {
                    return Err(e);
                },
            },
            LogInput::EsIndex(index) => match ESGetStrategy::create(
                index.clone(),
                option.duplicate(),
            ) {
                Ok(source) => GetStrategy::Es(source),
                Err(e) => {
                    return Err(e);
                },
            },
        };
        let save_impl = match &option.save {
            LogSave::File(path) => match FileSaveStrategy::create_from_options(
                path.clone(),
                option.duplicate(),
            ) {
                Ok(sink) => Some(SaveStrategy::File(sink)),
                Err(e) => {
                    return Err(e);
                },
            },
            LogSave::EsIndex(index) => match ESSaveStrategy::create_from_options(
                index.clone(),
                option.duplicate(),
            ) {
                Ok(sink) => Some(SaveStrategy::Es(sink)),
                Err(e) => {
                    return Err(e);
                },
            },
            LogSave::Unset => None,
        };
        let output_impl = match option.output {
            LogOutput::Json => Some(OutputStrategy::Json(JsonOutputStrategy)),
            LogOutput::PrettyJson => Some(OutputStrategy::PrettyJson(JsonPrettyOutputStrategy)),
            LogOutput::Count => Some(OutputStrategy::Count(CountOutputStrategy)),
            LogOutput::Summary => Some(OutputStrategy::Summary(SummaryOutputStrategy)),
            LogOutput::Unset => None,
        };
        Ok(LogProcessor { get_impl, save_impl, output_impl })
    }

    /// The run that a command line describes when the local clock reads
    /// `now` seconds.
    pub fn from_cli_at(cli: &Cli, now: i64) -> (made: Result<LogProcessor, String>)
        ensures
            answers_run(*cli, now, made),
    {
        match LogProcessorOptions::from_cli_at(cli, now) {
            Ok(option) => Self::from_options(option),
            Err(e) => Err(e),
        }
    }

    /// The run that a command line describes, against the local clock of
    /// this machine: the answer is the one that `from_cli_at` gives for some
    /// reading of it.
    pub fn from_cli(cli: &Cli) -> (made: Result<LogProcessor, String>)
        ensures
            exists|now: i64| answers_run(*cli, now, made),
    {
        let resolved = LogProcessorOptions::from_cli(cli);
        let ghost now = choose|now: i64| answers_cli(*cli, now, resolved);
        let made = match resolved {
            Ok(option) => Self::from_options(option),
            Err(e) => Err(e),
        };
        assert(answers_run(*cli, now, made));
        made
    }
}

/// The order of a run, step by step. The sink is called on only straight
/// after the source has given its records, and the renderer only after the
/// source or the sink has succeeded; a failure of the source or of the sink
/// ends the run with an error, so that nothing is saved or shown after it; a
/// finished run stays finished; and from the moment the source has given
/// them, the records of the state are never changed: the renderer gets the
/// records that the sink got.
pub proof fn lemma_run_order(
    processor: LogProcessor,
    state: RunState,
    event: RunEvent,
    next: (RunState, RunAction),
)
    requires
        is_run_step(processor, state, event, next),
    ensures
        next.1 == RunAction::Save ==> processor.save_impl is Some && state.stage
            == RunStage::Getting && event matches RunEvent::Got(Ok(_)),
        next.1 == RunAction::Output ==> processor.output_impl is Some && (event matches RunEvent::Got(
            Ok(_),
        ) && processor.save_impl is None || event matches RunEvent::Saved(Ok(_))),
        next.1 == RunAction::Get ==> state.stage == RunStage::Ready,
        (event matches RunEvent::Got(Err(_)) || event matches RunEvent::Saved(Err(_)))
            ==> next.0.stage == RunStage::Finished && next.1 matches RunAction::Stop(Err(_)),
        state.stage == RunStage::Finished ==> next.0.stage == RunStage::Finished
            && next.1 matches RunAction::Stop(Err(_)),
        !(state.stage == RunStage::Getting && event matches RunEvent::Got(Ok(_))) ==> next.0.logs
            == state.logs,
{
}

} // verus!
