use vstd::prelude::*;

use crate::config::Config;
use crate::state::AppState;

verus! {

/// The dashboard: its state, driven by the input loop.
pub struct App {
    pub state: AppState,
}

impl App {
    /// A dashboard on the pool list, configured by `config`, with the
    /// processor count the platform reports.
    pub fn new(config: Config, detected_cpus: Option<usize>) -> (r: Self)
        ensures
            r.state.wf(),
            r.state.current_view is PoolList,
            r.state.config == config,
            !r.state.should_quit,
            r.state.data_manager.thread_count == crate::config::thread_count_for(config.threads, detected_cpus),
    {
        App { state: AppState::new(config, detected_cpus) }
    }
}

} // verus!
