//! The pool: a fixed set of slots, one per backend session, and the rules by
//! which leases on them are handed out and taken back.

use vstd::prelude::*;
use crate::browser::containers::tab::{TabContainer, WAIT_INTERVAL};
use crate::browser::result::{Error, ErrorView};
use crate::text::{concat, push_str};

verus! {

/// How the backend is to be run.
#[derive(Clone, Copy, Debug, PartialEq, Eq, Structural)]
pub struct BrowserConfiguration {
    /// Whether the backend runs without a window.
    pub headless: bool,
    /// How many sessions the pool is to have.
    pub tabs_count: usize,
}

/// Why a [`BrowserConfigurationBuilder`] could not build.
#[derive(Debug)]
pub enum BrowserConfigurationBuilderError {
    /// The named field was never set.
    UninitializedField(&'static str),
}

impl BrowserConfigurationBuilderError {
    /// The text of the error: `` `<field>` must be initialized ``.
    pub open spec fn text(self) -> Seq<char> {
        match self {
            BrowserConfigurationBuilderError::UninitializedField(field) => "`"@ + field@
                + "` must be initialized"@,
        }
    }
}

impl BrowserConfigurationBuilderError {
    /// The text of the error.
    pub fn to_display_string(&self) -> (text: String)
        ensures
            text@ == self.text(),
    {
        match self {
            BrowserConfigurationBuilderError::UninitializedField(field) => {
                let mut text: String = concat("`", field);
                push_str(&mut text, "` must be initialized");
                text
            },
        }
    }
}

/// Collects a [`BrowserConfiguration`] field by field.
pub struct BrowserConfigurationBuilder {
    headless: Option<bool>,
    tabs_count: Option<usize>,
}

impl Default for BrowserConfigurationBuilder {
    fn default() -> (builder: Self)
        ensures
            builder.spec_headless() is None,
            builder.spec_tabs_count() is None,
    {
        BrowserConfigurationBuilder { headless: None, tabs_count: None }
    }
}

impl BrowserConfigurationBuilder {
    /// What has been set for `headless`.
    pub closed spec fn spec_headless(&self) -> Option<bool> {
        self.headless
    }

    /// What has been set for `tabs_count`.
    pub closed spec fn spec_tabs_count(&self) -> Option<usize> {
        self.tabs_count
    }

    /// Sets whether the backend runs without a window.
    pub fn headless(&mut self, value: bool) -> (builder: &mut Self)
        ensures
            builder.spec_headless() == Some(value),
            builder.spec_tabs_count() == old(self).spec_tabs_count(),
            *final(self) == *final(builder),
    {
        self.headless = Some(value);
        self
    }

    /// Sets how many sessions the pool is to have.
    pub fn tabs_count(&mut self, value: usize) -> (builder: &mut Self)
        ensures
            builder.spec_tabs_count() == Some(value),
            builder.spec_headless() == old(self).spec_headless(),
            *final(self) == *final(builder),
    {
        self.tabs_count = Some(value);
        self
    }

    /// The configuration, if every field has been set; else the first field
    /// that has not.
    pub fn build(&self) -> (built: Result<BrowserConfiguration, BrowserConfigurationBuilderError>)
        ensures
            built is Ok <==> self.spec_headless() is Some && self.spec_tabs_count() is Some,
            built matches Ok(config) ==> {
                &&& Some(config.headless) == self.spec_headless()
                &&& Some(config.tabs_count) == self.spec_tabs_count()
            },
            built matches Err(BrowserConfigurationBuilderError::UninitializedField(field)) ==> {
                &&& self.spec_headless() is None ==> field@ == "headless"@
                &&& self.spec_headless() is Some ==> field@ == "tabs_count"@
            },
    {
        let headless: bool = match self.headless {
            Some(value) => value,
            None => {
                return Err(BrowserConfigurationBuilderError::UninitializedField("headless"));
            },
        };
        let tabs_count: usize = match self.tabs_count {
            Some(value) => value,
            None => {
                return Err(BrowserConfigurationBuilderError::UninitializedField("tabs_count"));
            },
        };
        Ok(BrowserConfiguration { headless, tabs_count })
    }
}

/// Seconds a backend may sit idle before it shuts down.
pub const IDLE_BROWSER_TIMEOUT_SECS: u64 = 3600;

/// Port on which the backend listens for its sessions.
pub const DEBUG_PORT: u16 = 39625;

/// With what the backend is launched.
#[derive(Clone, Copy, Debug, PartialEq, Eq, Structural)]
pub struct LaunchOptions {
    /// Whether the backend runs without a window.
    pub headless: bool,
    /// Seconds the backend may sit idle before it shuts down.
    pub idle_browser_timeout_secs: u64,
    /// Port on which the backend listens.
    pub port: Option<u16>,
}

impl LaunchOptions {
    /// The launch options for a configuration.
    pub open spec fn of(config: BrowserConfiguration) -> LaunchOptions {
        LaunchOptions {
            headless: config.headless,
            idle_browser_timeout_secs: IDLE_BROWSER_TIMEOUT_SECS,
            port: Some(DEBUG_PORT),
        }
    }
}

/// The launch options for a configuration.
pub fn launch_options(config: &BrowserConfiguration) -> (options: LaunchOptions)
    ensures
        options == LaunchOptions::of(*config),
{
    LaunchOptions {
        headless: config.headless,
        idle_browser_timeout_secs: IDLE_BROWSER_TIMEOUT_SECS,
        port: Some(DEBUG_PORT),
    }
}

/// What went wrong when the backend was launched, with the text of the cause.
pub enum LaunchFailure {
    /// The launch options were not accepted.
    Options(String),
    /// The backend did not come up.
    Browser(String),
}

impl LaunchFailure {
    /// The failure that the launch ends with.
    pub open spec fn error(self) -> ErrorView {
        match self {
            LaunchFailure::Options(cause) => ErrorView {
                stage: "launch_browser"@,
                message: "error creating launch options: "@ + cause@,
            },
            LaunchFailure::Browser(cause) => ErrorView {
                stage: "launch_browser"@,
                message: "error creating browser: "@ + cause@,
            },
        }
    }
}

/// The failure that a launch which went wrong ends with.
pub fn launch_error(failure: &LaunchFailure) -> (error: Error)
    ensures
        error@ == failure.error(),
{
    match failure {
        LaunchFailure::Options(cause) => Error::caused(
            "launch_browser",
            "error creating launch options: ",
            cause.as_str(),
        ),
        LaunchFailure::Browser(cause) => Error::caused(
            "launch_browser",
            "error creating browser: ",
            cause.as_str(),
        ),
    }
}

/// Whether every slot is leased.
pub open spec fn all_leased(leases: Seq<bool>) -> bool {
    forall|i: int| 0 <= i < leases.len() ==> #[trigger] leases[i]
}

/// Whether `slot` is the first free slot in scan order.
pub open spec fn is_first_free(leases: Seq<bool>, slot: int) -> bool {
    &&& 0 <= slot < leases.len()
    &&& !leases[slot]
    &&& forall|i: int| 0 <= i < slot ==> #[trigger] leases[i]
}

/// The number of leases that are out.
pub open spec fn outstanding(leases: Seq<bool>) -> nat
    decreases leases.len(),
{
    if leases.len() == 0 {
        0
    } else {
        outstanding(leases.drop_last()) + if leases.last() {
            1nat
        } else {
            0nat
        }
    }
}

/// The leases after one scan for a free slot: the first free slot, if there
/// is one, is leased.
pub open spec fn scanned(leases: Seq<bool>) -> Seq<bool> {
    if exists|slot: int| is_first_free(leases, slot) {
        leases.update(choose|slot: int| is_first_free(leases, slot), true)
    } else {
        leases
    }
}

/// The leases after the lease on `slot` has been given back.
pub open spec fn released(leases: Seq<bool>, slot: int) -> Seq<bool> {
    if 0 <= slot < leases.len() {
        leases.update(slot, false)
    } else {
        leases
    }
}

/// A pool of `capacity` slots of which none is leased.
pub open spec fn fresh(capacity: nat) -> Seq<bool> {
    Seq::new(capacity, |i: int| false)
}

/// There is at most one first free slot.
pub proof fn lemma_first_free_is_unique(leases: Seq<bool>, a: int, b: int)
    requires
        is_first_free(leases, a),
        is_first_free(leases, b),
    ensures
        a == b,
{
    if a < b {
        assert(leases[a]);
    } else if b < a {
        assert(leases[b]);
    }
}

/// Either every slot is leased or there is a first free one, never both.
pub proof fn lemma_full_or_first_free(leases: Seq<bool>)
    ensures
        all_leased(leases) <==> !exists|slot: int| is_first_free(leases, slot),
    decreases leases.len(),
{
    if leases.len() == 0 {
    } else {
        let front = leases.drop_last();
        lemma_full_or_first_free(front);
        if all_leased(leases) {
            assert forall|slot: int| !is_first_free(leases, slot) by {
                if 0 <= slot < leases.len() {
                    assert(leases[slot]);
                }
            }
        } else {
            let free = choose|i: int| 0 <= i < leases.len() && !#[trigger] leases[i];
            if all_leased(front) {
                assert forall|i: int| 0 <= i < leases.len() - 1 implies #[trigger] leases[i] by {
                    assert(front[i]);
                }
                assert(is_first_free(leases, leases.len() - 1));
            } else {
                let slot = choose|slot: int| is_first_free(front, slot);
                assert forall|i: int| 0 <= i < slot implies #[trigger] leases[i] by {
                    assert(front[i]);
                }
                assert(!front[slot]);
                assert(is_first_free(leases, slot));
            }
        }
    }
}

/// No more leases are out than there are slots, and all of them are out
/// exactly when every slot is leased.
pub proof fn lemma_outstanding_bounded(leases: Seq<bool>)
    ensures
        outstanding(leases) <= leases.len(),
        outstanding(leases) == leases.len() <==> all_leased(leases),
    decreases leases.len(),
{
    if leases.len() > 0 {
        let front = leases.drop_last();
        lemma_outstanding_bounded(front);
        if all_leased(leases) {
            assert(leases.last());
            assert forall|i: int| 0 <= i < front.len() implies #[trigger] front[i] by {
                assert(leases[i]);
            }
        }
        if outstanding(leases) == leases.len() {
            assert forall|i: int| 0 <= i < leases.len() implies #[trigger] leases[i] by {
                if i < front.len() {
                    assert(front[i]);
                }
            }
        }
    }
}

/// Changing one slot changes the number of leases that are out by that slot
/// alone.
pub proof fn lemma_outstanding_update(leases: Seq<bool>, slot: int, leased: bool)
    requires
        0 <= slot < leases.len(),
    ensures
        outstanding(leases.update(slot, leased)) + (if leases[slot] {
            1int
        } else {
            0int
        }) == outstanding(leases) + (if leased {
            1int
        } else {
            0int
        }),
    decreases leases.len(),
{
    let changed = leases.update(slot, leased);
    if slot == leases.len() - 1 {
        assert(changed.drop_last() =~= leases.drop_last());
    } else {
        assert(changed.drop_last() =~= leases.drop_last().update(slot, leased));
        lemma_outstanding_update(leases.drop_last(), slot, leased);
    }
}

/// No lease is out on a fresh pool.
pub proof fn lemma_fresh_has_none_outstanding(capacity: nat)
    ensures
        outstanding(fresh(capacity)) == 0,
    decreases capacity,
{
    if capacity > 0 {
        assert(fresh(capacity).drop_last() =~= fresh((capacity - 1) as nat));
        lemma_fresh_has_none_outstanding((capacity - 1) as nat);
    }
}

/// What one scan of the pool for a free slot comes to.
#[derive(Clone, Copy, Debug, PartialEq, Eq, Structural)]
pub enum LockAttempt {
    /// The slot at this position was free and is now leased to the caller.
    Locked(usize),
    /// Every slot is leased: wait this many milliseconds and scan again.
    Wait(u64),
}

/// What the backend reports while the pool is being built.
pub enum TabsEvent {
    /// The backend has been launched.
    Launched,
    /// The backend has this many sessions, or they could not be counted.
    Counted(Result<usize, String>),
    /// The backend opened one more session, or it could not.
    Opened(Result<(), String>),
    /// The sessions to wrap are this many, or they could not be listed.
    Listed(Result<usize, String>),
}

/// The mathematical content of a [`TabsEvent`].
pub enum TabsEventView {
    Launched,
    Counted(Result<usize, Seq<char>>),
    Opened(Result<(), Seq<char>>),
    Listed(Result<usize, Seq<char>>),
}

impl View for TabsEvent {
    type V = TabsEventView;

    open spec fn view(&self) -> TabsEventView {
        match *self {
            TabsEvent::Launched => TabsEventView::Launched,
            TabsEvent::Counted(Ok(count)) => TabsEventView::Counted(Ok(count)),
            TabsEvent::Counted(Err(cause)) => TabsEventView::Counted(Err(cause@)),
            TabsEvent::Opened(Ok(())) => TabsEventView::Opened(Ok(())),
            TabsEvent::Opened(Err(cause)) => TabsEventView::Opened(Err(cause@)),
            TabsEvent::Listed(Ok(count)) => TabsEventView::Listed(Ok(count)),
            TabsEvent::Listed(Err(cause)) => TabsEventView::Listed(Err(cause@)),
        }
    }
}

/// What the pool asks of the backend while it is being built.
pub enum TabsAction {
    /// Count the sessions and report [`TabsEvent::Counted`].
    Count,
    /// Open one more session and report [`TabsEvent::Opened`].
    Open,
    /// List the sessions to wrap and report [`TabsEvent::Listed`].
    List,
    /// The pool stands: there is nothing more to do.
    Ready,
    /// The pool cannot be built.
    Fail(Error),
}

/// The mathematical content of a [`TabsAction`].
pub enum TabsActionView {
    Count,
    Open,
    List,
    Ready,
    Fail(ErrorView),
}

impl View for TabsAction {
    type V = TabsActionView;

    open spec fn view(&self) -> TabsActionView {
        match *self {
            TabsAction::Count => TabsActionView::Count,
            TabsAction::Open => TabsActionView::Open,
            TabsAction::List => TabsActionView::List,
            TabsAction::Ready => TabsActionView::Ready,
            TabsAction::Fail(error) => TabsActionView::Fail(error@),
        }
    }
}

/// The failure of building the pool with the given message.
pub open spec fn init_failure(message: Seq<char>) -> ErrorView {
    ErrorView { stage: "init_tabs"@, message }
}

/// The mathematical content of a [`BrowserContainer`].
pub struct PoolView {
    /// The configuration the pool was made with.
    pub config: BrowserConfiguration,
    /// Whether the pool has been built.
    pub ready: bool,
    /// The failure that ended the build, if it failed.
    pub failure: Option<ErrorView>,
    /// For each slot, in scan order, whether it is leased.
    pub leases: Seq<bool>,
}

impl PoolView {
    /// The number of slots.
    pub open spec fn capacity(self) -> nat {
        self.leases.len()
    }

    /// A pool that has not been built yet.
    pub open spec fn unbuilt(config: BrowserConfiguration) -> PoolView {
        PoolView { config, ready: false, failure: None, leases: Seq::empty() }
    }

    /// The pool whose build has ended with the given failure, and what it
    /// answers: the failure.
    pub open spec fn failed(self, failure: ErrorView) -> (PoolView, TabsActionView) {
        (PoolView { failure: Some(failure), ..self }, TabsActionView::Fail(failure))
    }

    /// The pool with other leases.
    pub open spec fn with_leases(self, leases: Seq<bool>) -> PoolView {
        PoolView { leases, ..self }
    }

    /// What building the pool comes to on an event: the pool afterwards and
    /// what it asks for next.
    ///
    /// Sessions are opened one at a time until the backend has as many as the
    /// configuration asks for. Then every session that the backend lists gets
    /// a slot, all at once, and the pool stands. Any failure ends the build
    /// without a pool, for good: whatever is reported afterwards, the answer
    /// is that failure and no slot is ever made. Once the pool stands, no
    /// event changes it.
    pub open spec fn init(self, event: TabsEventView) -> (PoolView, TabsActionView) {
        if self.ready {
            (self, TabsActionView::Ready)
        } else if self.failure is Some {
            (self, TabsActionView::Fail(self.failure->0))
        } else {
            match event {
                TabsEventView::Launched => (self, TabsActionView::Count),
                TabsEventView::Counted(Ok(count)) => if count < self.config.tabs_count {
                    (self, TabsActionView::Open)
                } else {
                    (self, TabsActionView::List)
                },
                TabsEventView::Counted(Err(cause)) => self.failed(init_failure(cause)),
                TabsEventView::Opened(Ok(())) => (self, TabsActionView::Count),
                TabsEventView::Opened(Err(cause)) => self.failed(
                    init_failure("error when creating tabs: "@ + cause),
                ),
                TabsEventView::Listed(Ok(count)) => (
                    PoolView { ready: true, leases: fresh(count as nat), ..self },
                    TabsActionView::Ready,
                ),
                TabsEventView::Listed(Err(cause)) => self.failed(
                    init_failure("error when creating tab containers: "@ + cause),
                ),
            }
        }
    }
}

/// The pool: the configuration it was made with and its slots in scan order.
pub struct BrowserContainer {
    config: BrowserConfiguration,
    ready: bool,
    failure: Option<Error>,
    tabs: Vec<TabContainer>,
}

impl View for BrowserContainer {
    type V = PoolView;

    closed spec fn view(&self) -> PoolView {
        PoolView {
            config: self.config,
            ready: self.ready,
            failure: match self.failure {
                Some(failure) => Some(failure@),
                None => None,
            },
            leases: Seq::new(self.tabs@.len(), |i: int| self.tabs@[i].spec_locked()),
        }
    }
}

impl BrowserContainer {
    /// Every slot wraps the session at its own position, so no session has
    /// two slots; and there are no slots before the pool is built.
    #[verifier::type_invariant]
    spec fn inv(&self) -> bool {
        &&& forall|i: int| 0 <= i < self.tabs@.len() ==> (#[trigger] self.tabs@[i]).spec_session() == i
        &&& !self.ready ==> self.tabs@.len() == 0
    }

    /// A pool for the given configuration that has not been built yet: it has
    /// no slots until [`init_tabs`](Self::init_tabs) has seen the sessions.
    pub fn new(config: BrowserConfiguration) -> (pool: BrowserContainer)
        ensures
            pool@ == PoolView::unbuilt(config),
    {
        let pool = BrowserContainer { config, ready: false, failure: None, tabs: Vec::new() };
        assert(pool@.leases =~= Seq::empty());
        pool
    }

    /// The configuration the pool was made with.
    pub fn config(&self) -> (config: BrowserConfiguration)
        ensures
            config == self@.config,
    {
        self.config
    }

    /// Whether the pool has been built.
    pub fn is_ready(&self) -> (ready: bool)
        ensures
            ready == self@.ready,
    {
        self.ready
    }

    /// The number of slots.
    pub fn capacity(&self) -> (capacity: usize)
        ensures
            capacity == self@.capacity(),
    {
        self.tabs.len()
    }

    /// The slot at the given position, if there is one.
    pub fn tab(&self, slot: usize) -> (tab: Option<TabContainer>)
        ensures
            tab is Some <==> slot < self@.capacity(),
            tab matches Some(found) ==> {
                &&& found.spec_session() == slot
                &&& found.spec_locked() == self@.leases[slot as int]
            },
    {
        proof {
            use_type_invariant(self);
        }
        if slot < self.tabs.len() {
            Some(self.tabs[slot])
        } else {
            None
        }
    }

    /// The number of leases that are out.
    pub fn outstanding(&self) -> (count: usize)
        ensures
            count == outstanding(self@.leases),
            count <= self@.capacity(),
    {
        let mut count: usize = 0;
        let mut at: usize = 0;
        while at < self.tabs.len()
            invariant
                at <= self.tabs@.len(),
                count == outstanding(self@.leases.take(at as int)),
                count <= at,
            decreases self.tabs@.len() - at,
        {
            proof {
                let upto = self@.leases.take(at + 1);
                assert(upto.drop_last() =~= self@.leases.take(at as int));
                assert(upto.last() == self.tabs@[at as int].spec_locked());
            }
            if self.tabs[at].is_locked() {
                count += 1;
            }
            at += 1;
        }
        assert(self@.leases.take(at as int) =~= self@.leases);
        count
    }

    /// Takes one step in building the pool: looks at what the backend
    /// reported and says what to ask of it next.
    pub fn init_tabs(&mut self, event: TabsEvent) -> (action: TabsAction)
        ensures
            (final(self)@, action@) == old(self)@.init(event@),
    {
        proof {
            use_type_invariant(&*self);
        }
        if self.ready {
            return TabsAction::Ready;
        }
        match &self.failure {
            Some(failure) => {
                return TabsAction::Fail(failure.duplicate());
            },
            None => {},
        }
        match event {
            TabsEvent::Launched => TabsAction::Count,
            TabsEvent::Counted(Ok(count)) => {
                if count < self.config.tabs_count {
                    TabsAction::Open
                } else {
                    TabsAction::List
                }
            },
            TabsEvent::Counted(Err(cause)) => self.fail(Error::new("init_tabs", cause)),
            TabsEvent::Opened(Ok(())) => TabsAction::Count,
            TabsEvent::Opened(Err(cause)) => self.fail(
                Error::caused("init_tabs", "error when creating tabs: ", cause.as_str()),
            ),
            TabsEvent::Listed(Ok(count)) => {
                let mut tabs: Vec<TabContainer> = Vec::new();
                let mut session: usize = 0;
                while session < count
                    invariant
                        session <= count,
                        tabs@.len() == session,
                        forall|i: int|
                            0 <= i < session ==> (#[trigger] tabs@[i]).spec_session() == i
                                && !tabs@[i].spec_locked(),
                    decreases count - session,
                {
                    tabs.push(TabContainer::new(session));
                    session += 1;
                }
                self.ready = true;
                self.tabs = tabs;
                assert(self@.leases =~= fresh(count as nat));
                TabsAction::Ready
            },
            TabsEvent::Listed(Err(cause)) => self.fail(
                Error::caused("init_tabs", "error when creating tab containers: ", cause.as_str()),
            ),
        }
    }

    /// Ends the build with the given failure.
    fn fail(&mut self, failure: Error) -> (action: TabsAction)
        requires
            !old(self)@.ready,
        ensures
            (final(self)@, action@) == old(self)@.failed(failure@),
    {
        proof {
            use_type_invariant(&*self);
        }
        let kept: Error = failure.duplicate();
        self.failure = Some(kept);
        TabsAction::Fail(failure)
    }

    /// Whether the build of the pool has failed.
    pub fn has_failed(&self) -> (failed: bool)
        ensures
            failed == self@.failure is Some,
    {
        self.failure.is_some()
    }

    /// Puts `tab`, which wraps the session at `slot`, in the place of the slot
    /// there.
    fn put(&mut self, slot: usize, tab: TabContainer)
        requires
            slot < old(self)@.capacity(),
            tab.spec_session() == slot,
        ensures
            final(self)@ == old(self)@.with_leases(
                old(self)@.leases.update(slot as int, tab.spec_locked()),
            ),
    {
        proof {
            use_type_invariant(&*self);
        }
        let ghost before = self.tabs@;
        let mut tabs: Vec<TabContainer> = Vec::new();
        core::mem::swap(&mut self.tabs, &mut tabs);
        assert(tabs@ == before);
        tabs.set(slot, tab);
        assert(tabs@ == before.update(slot as int, tab));
        assert(self.ready);
        assert forall|i: int| 0 <= i < tabs@.len() implies (#[trigger] tabs@[i]).spec_session()
            == i by {
            if i != slot {
                assert(tabs@[i] == before[i]);
            }
        }
        self.tabs = tabs;
        assert(self.tabs@ == before.update(slot as int, tab));
        assert(self@.leases =~= old(self)@.leases.update(slot as int, tab.spec_locked()));
    }

    /// Scans the slots once, in their fixed order, and leases the first one
    /// that is free. When every slot is leased nothing changes and the caller
    /// is told to wait before the next scan.
    pub fn lock_tab(&mut self) -> (attempt: LockAttempt)
        ensures
            final(self)@ == old(self)@.with_leases(scanned(old(self)@.leases)),
            match attempt {
                LockAttempt::Locked(slot) => {
                    &&& is_first_free(old(self)@.leases, slot as int)
                    &&& final(self)@.leases == old(self)@.leases.update(slot as int, true)
                    &&& outstanding(final(self)@.leases) == outstanding(old(self)@.leases) + 1
                },
                LockAttempt::Wait(millis) => {
                    &&& millis == WAIT_INTERVAL
                    &&& all_leased(old(self)@.leases)
                    &&& outstanding(old(self)@.leases) == old(self)@.capacity()
                },
            },
            outstanding(final(self)@.leases) <= final(self)@.capacity(),
    {
        proof {
            use_type_invariant(&*self);
        }
        let ghost before = self@;
        let mut at: usize = 0;
        while at < self.tabs.len()
            invariant
                at <= self.tabs@.len(),
                self@ == before,
                before == old(self)@,
                forall|i: int|
                    0 <= i < self.tabs@.len() ==> (#[trigger] self.tabs@[i]).spec_session() == i,
                !self.ready ==> self.tabs@.len() == 0,
                forall|i: int| 0 <= i < at ==> #[trigger] before.leases[i],
            decreases self.tabs@.len() - at,
        {
            let mut tab: TabContainer = self.tabs[at];
            if tab.try_lock() {
                self.put(at, tab);
                proof {
                    assert(is_first_free(before.leases, at as int));
                    assert(self@.leases =~= before.leases.update(at as int, true));
                    lemma_full_or_first_free(before.leases);
                    lemma_first_free_is_unique(
                        before.leases,
                        at as int,
                        choose|slot: int| is_first_free(before.leases, slot),
                    );
                    lemma_outstanding_update(before.leases, at as int, true);
                    lemma_outstanding_bounded(self@.leases);
                }
                return LockAttempt::Locked(at);
            }
            at += 1;
        }
        proof {
            assert(all_leased(before.leases));
            lemma_full_or_first_free(before.leases);
            lemma_outstanding_bounded(before.leases);
        }
        LockAttempt::Wait(WAIT_INTERVAL)
    }

    /// Gives back the lease on the slot at the given position. A position
    /// without a slot, or a slot that is not leased, changes nothing.
    pub fn unlock_tab(&mut self, slot: usize)
        ensures
            final(self)@ == old(self)@.with_leases(released(old(self)@.leases, slot as int)),
            !all_leased(final(self)@.leases) || slot >= old(self)@.capacity(),
            outstanding(final(self)@.leases) <= final(self)@.capacity(),
    {
        proof {
            use_type_invariant(&*self);
        }
        let ghost before = self@;
        if slot < self.tabs.len() {
            let mut tab: TabContainer = self.tabs[slot];
            tab.unlock();
            self.put(slot, tab);
            assert(self@.leases =~= before.leases.update(slot as int, false));
            assert(!self@.leases[slot as int]);
        }
        proof {
            lemma_outstanding_bounded(self@.leases);
        }
    }

    /// The options with which to launch the backend anew. The pool itself is
    /// left as it is: its slots and the leases on them stay, whoever holds
    /// them.
    pub fn restart_browser(&self) -> (options: LaunchOptions)
        ensures
            options == LaunchOptions::of(self@.config),
    {
        launch_options(&self.config)
    }
}

/// A build that has failed stays failed: whatever the backend reports
/// afterwards, the pool answers with the failure that ended the build, and
/// it never gets a slot.
pub proof fn law_failed_build_is_final(pool: PoolView, failure: ErrorView, event: TabsEventView)
    requires
        !pool.ready,
        pool.failure is None,
    ensures
        ({
            let (failed, answer) = pool.failed(failure);
            &&& answer == TabsActionView::Fail(failure)
            &&& failed.init(event) == (failed, TabsActionView::Fail(failure))
            &&& !failed.ready
            &&& failed.leases == pool.leases
        }),
{
}

/// One use of the pool by some caller.
pub enum PoolUse {
    /// A scan for a free slot.
    Lock,
    /// The return of the lease on the slot at this position.
    Unlock(int),
}

impl PoolUse {
    /// The leases after this use.
    pub open spec fn apply(self, leases: Seq<bool>) -> Seq<bool> {
        match self {
            PoolUse::Lock => scanned(leases),
            PoolUse::Unlock(slot) => released(leases, slot),
        }
    }

    /// By how much this use changes the number of leases that callers hold:
    /// a scan that finds a free slot hands one out, the return of a lease
    /// that is out takes one back, anything else changes nothing.
    pub open spec fn handed_out(self, leases: Seq<bool>) -> int {
        match self {
            PoolUse::Lock => if all_leased(leases) {
                0
            } else {
                1
            },
            PoolUse::Unlock(slot) => if 0 <= slot < leases.len() && leases[slot] {
                -1
            } else {
                0
            },
        }
    }
}

/// The leases after a history of uses, starting from `leases`.
pub open spec fn leases_after(leases: Seq<bool>, history: Seq<PoolUse>) -> Seq<bool>
    decreases history.len(),
{
    if history.len() == 0 {
        leases
    } else {
        history.last().apply(leases_after(leases, history.drop_last()))
    }
}

/// The number of leases that callers hold after a history of uses that began
/// with none held: those handed out less those taken back.
pub open spec fn held_after(leases: Seq<bool>, history: Seq<PoolUse>) -> int
    decreases history.len(),
{
    if history.len() == 0 {
        0
    } else {
        held_after(leases, history.drop_last()) + history.last().handed_out(
            leases_after(leases, history.drop_last()),
        )
    }
}

/// A scan leases exactly the first free slot, if there is one.
pub proof fn lemma_scanned(leases: Seq<bool>)
    ensures
        scanned(leases).len() == leases.len(),
        all_leased(leases) ==> scanned(leases) == leases,
        forall|slot: int| is_first_free(leases, slot) ==> scanned(leases) == leases.update(slot, true),
        outstanding(scanned(leases)) == outstanding(leases) + PoolUse::Lock.handed_out(leases),
{
    lemma_full_or_first_free(leases);
    if all_leased(leases) {
    } else {
        let first = choose|slot: int| is_first_free(leases, slot);
        assert forall|slot: int| is_first_free(leases, slot) implies scanned(leases)
            == leases.update(slot, true) by {
            lemma_first_free_is_unique(leases, slot, first);
        }
        lemma_outstanding_update(leases, first, true);
    }
}

/// However a pool of `capacity` slots is used, callers never hold more
/// leases than it has slots. What they hold is what the pool has marked as
/// leased, and the number of slots never changes.
pub proof fn law_leases_never_exceed_capacity(capacity: nat, history: Seq<PoolUse>)
    ensures
        leases_after(fresh(capacity), history).len() == capacity,
        held_after(fresh(capacity), history) == outstanding(
            leases_after(fresh(capacity), history),
        ),
        0 <= held_after(fresh(capacity), history) <= capacity,
    decreases history.len(),
{
    if history.len() == 0 {
        lemma_fresh_has_none_outstanding(capacity);
    } else {
        let earlier = history.drop_last();
        law_leases_never_exceed_capacity(capacity, earlier);
        let leases = leases_after(fresh(capacity), earlier);
        match history.last() {
            PoolUse::Lock => {
                lemma_scanned(leases);
            },
            PoolUse::Unlock(slot) => {
                if 0 <= slot < leases.len() {
                    lemma_outstanding_update(leases, slot, false);
                }
            },
        }
        lemma_outstanding_bounded(leases_after(fresh(capacity), history));
    }
}

/// A caller is told to wait only while others are at work: when a pool
/// with at least one slot has no free slot, every one of its slots is leased
/// to a job, so there is a lease whose return will let the next scan
/// succeed.
pub proof fn law_a_full_pool_is_at_work(leases: Seq<bool>)
    requires
        leases.len() >= 1,
        all_leased(leases),
    ensures
        scanned(leases) == leases,
        outstanding(leases) == leases.len(),
        outstanding(leases) >= 1,
        forall|slot: int|
            0 <= slot < leases.len() ==> leases[slot] && #[trigger] is_first_free(
                released(leases, slot),
                slot,
            ),
{
    lemma_scanned(leases);
    lemma_outstanding_bounded(leases);
    assert forall|slot: int| 0 <= slot < leases.len() implies leases[slot] && #[trigger] is_first_free(
        released(leases, slot),
        slot,
    ) by {
        let after = released(leases, slot);
        assert forall|i: int| 0 <= i < slot implies #[trigger] after[i] by {
            assert(leases[i]);
        }
    }
}

/// A lease that is given back can be taken again: the slot is free, the
/// next scan leases a slot at or before it, and leases that very slot when
/// every other one is taken.
pub proof fn law_returned_slot_can_be_leased_again(leases: Seq<bool>, slot: int)
    requires
        0 <= slot < leases.len(),
    ensures
        !released(leases, slot)[slot],
        !all_leased(released(leases, slot)),
        exists|next: int| next <= slot && #[trigger] is_first_free(released(leases, slot), next),
        (forall|other: int| 0 <= other < leases.len() && other != slot ==> #[trigger] leases[other])
            ==> scanned(released(leases, slot)) == released(leases, slot).update(slot, true),
{
    let after = released(leases, slot);
    assert(!after[slot]);
    lemma_full_or_first_free(after);
    let next = choose|next: int| is_first_free(after, next);
    if slot < next {
        assert(after[slot]);
    }
    if forall|other: int| 0 <= other < leases.len() && other != slot ==> #[trigger] leases[other] {
        assert forall|i: int| 0 <= i < slot implies #[trigger] after[i] by {
            assert(leases[i]);
        }
        assert(is_first_free(after, slot));
        lemma_scanned(after);
    }
}

} // verus!
