//! The public entry point: admits rendering jobs to the pool and takes their
//! leases back when they end.

use vstd::prelude::*;
use crate::browser::containers::browser::{
    all_leased, is_first_free, law_returned_slot_can_be_leased_again, lemma_full_or_first_free,
    released, scanned,
    BrowserConfiguration, BrowserConfigurationBuilder, BrowserConfigurationBuilderError,
    BrowserContainer, LaunchOptions, LockAttempt, PoolView, TabsAction, TabsEvent,
};
use crate::browser::containers::tab::{
    failure, joined, joined_view, rendered_view, RenderAction, RenderActionView, RenderEventView,
    RenderJob, RenderJobView, RenderStage, RenderState, WAIT_INTERVAL,
};
use crate::browser::result::{Error, ErrorView, Result};
use crate::browser::ticket::{valid_id, RenderTicket};
use crate::page_props::PageProperties;

verus! {

/// The failure of making an engine whose configuration could not be built.
pub open spec fn config_failure(error: BrowserConfigurationBuilderError) -> ErrorView {
    ErrorView {
        stage: "new_render_engine"@,
        message: "error when building config: "@ + error.text(),
    }
}

/// The failure of making an engine whose configuration could not be built.
pub fn config_error(error: &BrowserConfigurationBuilderError) -> (failure: Error)
    ensures
        failure@ == config_failure(*error),
{
    let text: String = error.to_display_string();
    Error::caused("new_render_engine", "error when building config: ", text.as_str())
}

/// Renders HTML documents as PDF on a pool of backend sessions.
pub struct RenderingEngine {
    browser_container: BrowserContainer,
}

impl View for RenderingEngine {
    type V = PoolView;

    /// An engine is its pool.
    closed spec fn view(&self) -> PoolView {
        self.browser_container@
    }
}

impl RenderingEngine {
    /// An engine for a backend without a window and a pool of `tabs`
    /// sessions. The pool is not built yet: see
    /// [`init_tabs`](Self::init_tabs).
    pub fn new(tabs: usize) -> (made: Result<RenderingEngine>)
        ensures
            made matches Ok(engine) && engine@ == PoolView::unbuilt(
                BrowserConfiguration { headless: true, tabs_count: tabs },
            ),
    {
        let mut builder = BrowserConfigurationBuilder::default();
        builder.headless(true).tabs_count(tabs);
        let config: BrowserConfiguration = match builder.build() {
            Ok(config) => config,
            Err(error) => {
                return Err(config_error(&error));
            },
        };
        Ok(RenderingEngine { browser_container: BrowserContainer::new(config) })
    }

    /// The pool of the engine.
    pub fn browser_container(&self) -> (pool: &BrowserContainer)
        ensures
            pool@ == self@,
    {
        &self.browser_container
    }

    /// The options with which to launch the backend.
    pub fn launch_options(&self) -> (options: LaunchOptions)
        ensures
            options == LaunchOptions::of(self@.config),
    {
        self.browser_container.restart_browser()
    }

    /// Takes one step in building the pool; see
    /// [`BrowserContainer::init_tabs`].
    pub fn init_tabs(&mut self, event: TabsEvent) -> (action: TabsAction)
        ensures
            (final(self)@, action@) == old(self)@.init(event@),
    {
        self.browser_container.init_tabs(event)
    }

    /// Tries to admit a job: scans the pool once and, if a slot is free,
    /// leases it, makes the ticket for the document and begins to render it
    /// on that slot. If every slot is taken the job waits and is to ask
    /// again. A job that has been admitted before is left as it is.
    pub fn render_html(
        &mut self,
        job: &mut RenderJob,
        html: &str,
        page_properties: PageProperties,
    ) -> (action: RenderAction)
        ensures
            final(self)@.config == old(self)@.config,
            final(self)@.ready == old(self)@.ready,
            final(self)@.capacity() == old(self)@.capacity(),
            !(old(job)@.state is Pending || old(job)@.state is AwaitingSlot) ==> {
                &&& final(self)@ == old(self)@
                &&& final(job)@ == old(job)@
                &&& action@ is Idle
            },
            (old(job)@.state is Pending || old(job)@.state is AwaitingSlot) && all_leased(
                old(self)@.leases,
            ) ==> {
                &&& final(self)@ == old(self)@
                &&& final(job)@ == old(job)@.at(RenderState::AwaitingSlot)
                &&& action@ == RenderActionView::Wait(WAIT_INTERVAL)
            },
            (old(job)@.state is Pending || old(job)@.state is AwaitingSlot) && !all_leased(
                old(self)@.leases,
            ) ==> {
                &&& final(job)@.session matches Some(slot)
                &&& is_first_free(old(self)@.leases, slot as int)
                &&& final(self)@.leases == old(self)@.leases.update(slot as int, true)
                &&& final(job)@.ticket matches Some(ticket)
                &&& valid_id(ticket.id)
                &&& ticket.html == html@
                &&& ticket.page_properties == page_properties
                &&& (final(job)@, action@) == RenderJobView::started(slot, ticket)
            },
    {
        let state: RenderState = job.state();
        match state {
            RenderState::Pending => {},
            RenderState::AwaitingSlot => {},
            _ => {
                return RenderAction::Idle;
            },
        }
        proof {
            lemma_full_or_first_free(self@.leases);
        }
        match self.browser_container.lock_tab() {
            LockAttempt::Locked(slot) => {
                let ticket = RenderTicket::new(html, page_properties);
                match self.browser_container.tab(slot) {
                    Some(tab) => {
                        let (begun, action) = tab.render_html(ticket);
                        *job = begun;
                        action
                    },
                    // The scan leased a slot of the pool: this arm is never
                    // taken.
                    None => RenderAction::Idle,
                }
            },
            LockAttempt::Wait(millis) => {
                job.await_slot();
                RenderAction::Wait(millis)
            },
        }
    }

    /// Gives the lease on the slot of `session` back without a result, for a
    /// job that is given up before it ends.
    pub fn release(&mut self, session: usize)
        ensures
            final(self)@ == old(self)@.with_leases(released(old(self)@.leases, session as int)),
    {
        self.browser_container.unlock_tab(session);
    }

    /// Ends a job: gives the lease on its slot back, whatever the job came
    /// to, and hands out what it came to.
    pub fn complete(
        &mut self,
        session: usize,
        outcome: core::result::Result<Result<Vec<u8>>, String>,
    ) -> (rendered: Result<Vec<u8>>)
        ensures
            final(self)@ == old(self)@.with_leases(released(old(self)@.leases, session as int)),
            rendered_view(rendered) == joined_view(outcome),
    {
        self.release(session);
        joined(outcome)
    }
}

/// A job whose navigation fails does not keep its slot. The failure ends the
/// job at once, on the slot it was on; and when the engine takes the lease
/// back, as it does for every job that ends, that slot is free while every
/// other slot is as it was. The next scan then leases a slot at or before
/// it, and that very slot when every other one is taken.
pub proof fn law_failed_navigation_frees_the_slot(
    leases: Seq<bool>,
    job: RenderJobView,
    cause: Seq<char>,
    resolution: core::result::Result<Seq<char>, ()>,
)
    requires
        job.wf(),
        job.state is Navigating,
        job.session->0 < leases.len(),
        leases[job.session->0 as int],
    ensures
        ({
            let slot = job.session->0 as int;
            let (ended, action) = job.next(
                RenderEventView::NavigateReturned(Err(cause)),
                resolution,
            );
            let after = released(leases, ended.session->0 as int);
            &&& ended.state == RenderState::Failed(RenderStage::Navigating)
            &&& ended.session == job.session
            &&& action == RenderActionView::Finish(Err(failure(RenderStage::Navigating, cause)))
            &&& after.len() == leases.len()
            &&& !after[slot]
            &&& forall|other: int|
                0 <= other < leases.len() && other != slot ==> after[other] == #[trigger] leases[other]
            &&& exists|next: int| next <= slot && #[trigger] is_first_free(after, next)
            &&& (forall|other: int|
                0 <= other < leases.len() && other != slot ==> #[trigger] leases[other]) ==> scanned(
                after,
            ) == after.update(slot, true)
        }),
{
    law_returned_slot_can_be_leased_again(leases, job.session->0 as int);
}

} // verus!
