//! The domains to keep up to date, made ready from the configuration.

use crate::config::Config;
use crate::config::Entry;
use crate::config::Global;
use crate::provider::Backend;
use crate::provider::BackendView;
use vstd::prelude::*;

verus! {

/// One domain, the provider that publishes it and the interval at which it
/// is polled. Tasks are built once and never change.
#[derive(Clone, Debug, PartialEq, Eq)]
pub struct DomainTask {
    pub domain: String,
    pub interval_seconds: u64,
    pub provider: Backend,
}

/// What a [`DomainTask`] holds, with its texts as sequences of characters.
pub struct DomainTaskView {
    pub domain: Seq<char>,
    pub interval_seconds: u64,
    pub provider: BackendView,
}

impl View for DomainTask {
    type V = DomainTaskView;

    open spec fn view(&self) -> DomainTaskView {
        DomainTaskView {
            domain: self.domain@,
            interval_seconds: self.interval_seconds,
            provider: self.provider@,
        }
    }
}

/// The task that `entry` describes under the settings `global`.
pub open spec fn task_of(entry: Entry, global: Global) -> DomainTaskView {
    DomainTaskView {
        domain: entry.domain@,
        interval_seconds: entry.spec_interval(global),
        provider: entry.provider.spec_backend(entry.domain@),
    }
}

/// The tasks that `config` describes: one for each entry, in their order.
pub open spec fn tasks_of(config: Config) -> Seq<DomainTaskView> {
    config.entries@.map_values(|entry: Entry| task_of(entry, config.global))
}

/// What `tasks` hold, with their texts as sequences of characters.
pub open spec fn task_views(tasks: Seq<DomainTask>) -> Seq<DomainTaskView> {
    tasks.map_values(|task: DomainTask| task@)
}

impl DomainTask {
    /// Makes the task that `entry` describes under the settings `global`.
    pub fn from_entry(entry: &Entry, global: &Global) -> (task: DomainTask)
        ensures
            task@ == task_of(*entry, *global),
    {
        DomainTask {
            domain: entry.domain.clone(),
            interval_seconds: entry.interval(global),
            provider: Backend::from_config(entry.domain.as_str(), &entry.provider),
        }
    }
}

/// Makes the tasks that `config` describes: one for each entry, in their order.
pub fn tasks_from_config(config: &Config) -> (tasks: Vec<DomainTask>)
    ensures
        task_views(tasks@) == tasks_of(*config),
{
    let mut tasks: Vec<DomainTask> = Vec::new();
    let mut i: usize = 0;
    while i < config.entries.len()
        invariant
            i <= config.entries@.len(),
            tasks@.len() == i,
            forall|j: int| 0 <= j < i ==> (#[trigger] tasks@[j])@ == task_of(config.entries@[j], config.global),
        decreases config.entries@.len() - i,
    {
        tasks.push(DomainTask::from_entry(&config.entries[i], &config.global));
        i += 1;
    }
    assert(task_views(tasks@) =~= tasks_of(*config));
    tasks
}

} // verus!
