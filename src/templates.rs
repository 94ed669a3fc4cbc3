use vstd::prelude::*;

verus! {

#[verifier::external_type_specification]
#[verifier::external_body]
pub struct ExTera(tera::Tera);

#[verifier::external_type_specification]
#[verifier::external_body]
pub struct ExTeraContext(tera::Context);

#[verifier::external_type_specification]
#[verifier::external_body]
pub struct ExTeraError(tera::Error);

/// Relies on `tera::Tera::render`: renders the named template of the set
/// with the given context, or reports why it could not.
#[verifier::external_body]
fn tera_render(set: &tera::Tera, name: &str, context: &tera::Context) -> (r: Result<String, tera::Error>) {
    set.render(name, context)
}

/// The set that is live after a rebuild: the candidate if it was built,
/// else the set that was live before.
pub open spec fn after_rebuild(live: tera::Tera, candidate: Result<tera::Tera, tera::Error>) -> tera::Tera {
    match candidate {
        Ok(t) => t,
        Err(_) => live,
    }
}

/// The live set after a run of rebuilds, one candidate each, in order.
pub open spec fn after_rebuilds(live: tera::Tera, candidates: Seq<Result<tera::Tera, tera::Error>>) -> tera::Tera
    decreases candidates.len(),
{
    if candidates.len() == 0 {
        live
    } else {
        after_rebuild(after_rebuilds(live, candidates.drop_last()), candidates.last())
    }
}

/// The set of templates that serves renders. It is only ever swapped whole:
/// a candidate set is built apart, and takes over only if building it succeeded.
pub struct TemplateStore {
    live: tera::Tera,
}

impl TemplateStore {
    pub closed spec fn live_set(&self) -> tera::Tera {
        self.live
    }

    pub fn new(set: tera::Tera) -> (r: TemplateStore)
        ensures
            r.live_set() == set,
    {
        TemplateStore { live: set }
    }

    /// Renders a template of the live set.
    pub fn render(&self, name: &str, context: &tera::Context) -> (r: Result<String, tera::Error>) {
        tera_render(&self.live, name, context)
    }

    /// Makes a freshly built set live. Where building it failed, the live set
    /// stays as it was and the failure is handed back.
    pub fn replace(&mut self, candidate: Result<tera::Tera, tera::Error>) -> (r: Result<(), tera::Error>)
        ensures
            r is Ok <==> candidate is Ok,
            final(self).live_set() == after_rebuild(old(self).live_set(), candidate),
    {
        match candidate {
            Ok(set) => {
                self.live = set;
                Ok(())
            },
            Err(e) => Err(e),
        }
    }
}

/// Over any run of rebuilds, the live set is the candidate of the last one
/// that succeeded; where none did, the set that was live at the start.
pub proof fn lemma_last_successful_rebuild_is_live(
    live: tera::Tera,
    candidates: Seq<Result<tera::Tera, tera::Error>>,
)
    ensures
        (forall|i: int| 0 <= i < candidates.len() ==> #[trigger] candidates[i] is Err)
            ==> after_rebuilds(live, candidates) == live,
        forall|i: int| #![trigger candidates[i]]
            0 <= i < candidates.len() && candidates[i] is Ok
            && (forall|j: int| i < j < candidates.len() ==> #[trigger] candidates[j] is Err)
            ==> after_rebuilds(live, candidates) == candidates[i]->Ok_0,
    decreases candidates.len(),
{
    if candidates.len() > 0 {
        let init = candidates.drop_last();
        lemma_last_successful_rebuild_is_live(live, init);
        assert forall|i: int| 0 <= i < init.len() implies #[trigger] init[i] == candidates[i] by {}
        let n = candidates.len() - 1;
        assert forall|i: int| #![trigger candidates[i]]
            0 <= i < candidates.len() && candidates[i] is Ok
            && (forall|j: int| i < j < candidates.len() ==> #[trigger] candidates[j] is Err)
            implies after_rebuilds(live, candidates) == candidates[i]->Ok_0 by {
            if i < n {
                assert(candidates[n] is Err);
                assert(init[i] == candidates[i]);
                assert forall|j: int| i < j < init.len() implies #[trigger] init[j] is Err by {
                    assert(init[j] == candidates[j]);
                }
            }
        }
    }
}

/// What the watcher was told.
#[derive(Clone, Copy, Debug, PartialEq, Eq)]
pub enum WatchEvent {
    /// Something changed under the template directory.
    Changed,
    /// The subscription reported an error.
    WatchFailed,
    /// The rebuild that was running has ended, whatever its outcome.
    RebuildDone,
}

/// What the watcher asks its runner to do next.
#[derive(Clone, Copy, Debug, PartialEq, Eq)]
pub enum WatchAction {
    /// Rebuild the assets and the template set, then replace the live set.
    Rebuild,
    /// Log the subscription's error.
    Report,
    /// Nothing to do until the next event.
    Wait,
}

/// The decisions of the reload watcher: at most one rebuild runs at a time,
/// and changes seen during a rebuild are absorbed by one more rebuild after it.
#[derive(Clone, Copy, Debug, PartialEq, Eq)]
pub struct ReloadWatcher {
    pub rebuilding: bool,
    pub pending: bool,
}

impl ReloadWatcher {
    pub open spec fn wf(&self) -> bool {
        self.pending ==> self.rebuilding
    }

    /// An idle watcher.
    pub fn new() -> (r: ReloadWatcher)
        ensures
            r.wf(),
            !r.rebuilding,
            !r.pending,
    {
        ReloadWatcher { rebuilding: false, pending: false }
    }

    /// Takes one event and says what to do.
    pub fn step(&mut self, event: WatchEvent) -> (r: WatchAction)
        requires
            old(self).wf(),
        ensures
            final(self).wf(),
            match event {
                WatchEvent::Changed => if old(self).rebuilding {
                    r == WatchAction::Wait && final(self).rebuilding && final(self).pending
                } else {
                    r == WatchAction::Rebuild && final(self).rebuilding && !final(self).pending
                },
                WatchEvent::WatchFailed => r == WatchAction::Report && *final(self) == *old(self),
                WatchEvent::RebuildDone => if old(self).pending {
                    r == WatchAction::Rebuild && final(self).rebuilding && !final(self).pending
                } else {
                    r == WatchAction::Wait && !final(self).rebuilding && !final(self).pending
                },
            },
            // a rebuild is never started while another one runs
            r == WatchAction::Rebuild ==> !old(self).rebuilding || event == WatchEvent::RebuildDone,
    {
        match event {
            WatchEvent::Changed => {
                if self.rebuilding {
                    self.pending = true;
                    WatchAction::Wait
                } else {
                    self.rebuilding = true;
                    WatchAction::Rebuild
                }
            },
            WatchEvent::WatchFailed => WatchAction::Report,
            WatchEvent::RebuildDone => {
                if self.pending {
                    self.pending = false;
                    WatchAction::Rebuild
                } else {
                    self.rebuilding = false;
                    WatchAction::Wait
                }
            },
        }
    }
}

} // verus!
