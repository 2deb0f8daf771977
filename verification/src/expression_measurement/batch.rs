//! Batch jobs: the sources of a job, and waiting for a job to end.

use vstd::prelude::*;
use std::time::Duration;
use crate::common::time::{duration_nanos, to_nanos};
use crate::expression_measurement::models::{FileInput, JobStatus, Source, StateInference};

verus! {

/// What follows a look at a job while waiting for it to end.
#[derive(Debug)]
pub enum PollStep {
    /// The job has ended: return it.
    Done,
    /// The time to wait is over: fail with a timeout.
    TimedOut,
    /// Wait for the span, then look again.
    Wait(Duration),
}

/// Whether a job in the state has ended: it completed or it failed.
pub open spec fn has_ended(state: StateInference) -> bool {
    state.spec_status() == JobStatus::Completed || state.spec_status() == JobStatus::Failed
}

/// Whether waiting is over: a limit is set and more time than it has passed.
pub open spec fn wait_is_over(elapsed: Duration, max_wait: Option<Duration>) -> bool {
    match max_wait {
        Some(limit) => duration_nanos(elapsed) > duration_nanos(limit),
        None => false,
    }
}

/// Decides what follows a look at a job, `elapsed` after waiting began: a job
/// that has ended is returned; else a timeout where the wait is over; else
/// another look after `poll_interval`.
pub fn poll_step(
    state: &StateInference,
    elapsed: Duration,
    poll_interval: Duration,
    max_wait: Option<Duration>,
) -> (step: PollStep)
    ensures
        match step {
            PollStep::Done => has_ended(*state),
            PollStep::TimedOut => !has_ended(*state) && wait_is_over(elapsed, max_wait),
            PollStep::Wait(d) => !has_ended(*state) && !wait_is_over(elapsed, max_wait) && d
                == poll_interval,
        },
{
    match state {
        StateInference::Completed { .. } => PollStep::Done,
        StateInference::Failed { .. } => PollStep::Done,
        _ => {
            match max_wait {
                Some(limit) => {
                    if to_nanos(elapsed) > to_nanos(limit) {
                        return PollStep::TimedOut;
                    }
                },
                None => {},
            }
            PollStep::Wait(poll_interval)
        },
    }
}

/// The sources of a job from files: one file source for each, in order.
pub fn sources_from_files(files: Vec<FileInput>) -> (sources: Vec<Source>)
    ensures
        sources.len() == files.len(),
        forall|i: int|
            0 <= i < files.len() ==> (#[trigger] sources[i]) == (Source::File { file: files[i] }),
{
    let mut files = files;
    let ghost all = files@;
    let mut stack: Vec<FileInput> = Vec::new();
    while files.len() > 0
        invariant
            files.len() + stack.len() == all.len(),
            files@ == all.take(files.len() as int),
            stack@ == all.subrange(files.len() as int, all.len() as int).reverse(),
        decreases files.len(),
    {
        let ghost n = files.len() as int;
        let file = files.pop().unwrap();
        assert(file == all[n - 1]);
        stack.push(file);
        assert(files@ =~= all.take(n - 1));
        assert(stack@ =~= all.subrange(n - 1, all.len() as int).reverse());
    }
    let mut sources: Vec<Source> = Vec::new();
    while stack.len() > 0
        invariant
            sources.len() + stack.len() == all.len(),
            stack@ == all.subrange(sources.len() as int, all.len() as int).reverse(),
            forall|i: int|
                0 <= i < sources.len() ==> (#[trigger] sources[i]) == (Source::File {
                    file: all[i],
                }),
        decreases stack.len(),
    {
        let ghost n = sources.len() as int;
        let ghost rest = all.subrange(n, all.len() as int);
        let file = stack.pop().unwrap();
        assert(file == rest[0]);
        sources.push(Source::File { file });
        assert(stack@ =~= all.subrange(n + 1, all.len() as int).reverse());
    }
    sources
}

/// Whether a source is the URL source of `url`.
pub open spec fn is_url_source(s: Source, url: Seq<char>) -> bool {
    match s {
        Source::Url { url: u } => u@ == url,
        _ => false,
    }
}

/// Whether a source is the text source of `text`.
pub open spec fn is_text_source(s: Source, text: Seq<char>) -> bool {
    match s {
        Source::Text { text: t } => t@ == text,
        _ => false,
    }
}

/// The sources of a job from URLs: one URL source for each, in order.
pub fn sources_from_urls(urls: Vec<String>) -> (sources: Vec<Source>)
    ensures
        sources.len() == urls.len(),
        forall|i: int| 0 <= i < urls.len() ==> is_url_source(#[trigger] sources[i], urls[i]@),
{
    let mut sources: Vec<Source> = Vec::new();
    let mut i: usize = 0;
    while i < urls.len()
        invariant
            i <= urls.len(),
            sources.len() == i,
            forall|j: int| 0 <= j < i ==> is_url_source(#[trigger] sources[j], urls[j]@),
        decreases urls.len() - i,
    {
        sources.push(Source::Url { url: urls[i].clone() });
        i += 1;
    }
    sources
}

/// The sources of a job from texts: one text source for each, in order.
pub fn sources_from_texts(texts: Vec<String>) -> (sources: Vec<Source>)
    ensures
        sources.len() == texts.len(),
        forall|i: int| 0 <= i < texts.len() ==> is_text_source(#[trigger] sources[i], texts[i]@),
{
    let mut sources: Vec<Source> = Vec::new();
    let mut i: usize = 0;
    while i < texts.len()
        invariant
            i <= texts.len(),
            sources.len() == i,
            forall|j: int| 0 <= j < i ==> is_text_source(#[trigger] sources[j], texts[j]@),
        decreases texts.len() - i,
    {
        sources.push(Source::Text { text: texts[i].clone() });
        i += 1;
    }
    sources
}

} // verus!
