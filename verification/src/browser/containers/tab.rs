//! One slot of the pool and the rendering protocol that runs on it.
//!
//! A job is rendered in steps. Each step that needs the outside world is
//! handed to the caller as a [`RenderAction`]; the caller performs it and
//! reports the outcome as a [`RenderEvent`]. [`RenderJob::advance`] decides
//! what follows.

use vstd::prelude::*;
use std::path::PathBuf;
use crate::browser::result::{Error, ErrorView};
use crate::browser::ticket::{valid_id, RenderTicket, RenderTicketView};
use crate::page_props::{Inches, PageProperties};
use crate::text::{ascii_text, concat, push_str};

verus! {

/// Milliseconds to wait between two looks at something that is not ready yet:
/// a free slot, or the end of the rendering thread.
pub const WAIT_INTERVAL: u64 = 25;

/// A path in the file system, carried through unread.
#[verifier::external_type_specification]
#[verifier::external_body]
pub struct ExPathBuf(PathBuf);

/// The step of the rendering protocol at which a job failed.
#[derive(Clone, Copy, Debug, PartialEq, Eq, Structural)]
pub enum RenderStage {
    /// Writing the document to a temporary file.
    Staging,
    /// Turning the path of that file into an address.
    Resolving,
    /// Sending the session to that address.
    Navigating,
    /// Exporting the page as PDF.
    Exporting,
    /// Collecting the result from the thread that rendered.
    Joining,
}

impl RenderStage {
    /// The tag that a failure at this stage carries, by which a caller tells
    /// the stages apart.
    pub open spec fn tag(self) -> Seq<char> {
        match self {
            RenderStage::Staging => "staging"@,
            RenderStage::Resolving => "resolving"@,
            RenderStage::Navigating => "navigating"@,
            RenderStage::Exporting => "exporting"@,
            RenderStage::Joining => "joining"@,
        }
    }

    /// The tag that a failure at this stage carries.
    pub fn name(&self) -> (tag: &'static str)
        ensures
            tag@ == self.tag(),
    {
        match self {
            RenderStage::Staging => "staging",
            RenderStage::Resolving => "resolving",
            RenderStage::Navigating => "navigating",
            RenderStage::Exporting => "exporting",
            RenderStage::Joining => "joining",
        }
    }

    /// How the message of a failure at this stage begins.
    pub open spec fn what(self) -> Seq<char> {
        match self {
            RenderStage::Staging => "error saving page to temp: "@,
            RenderStage::Resolving => "error creating url from path: "@,
            RenderStage::Navigating => "error navigating to page: "@,
            RenderStage::Exporting => "error printing to PDF: "@,
            RenderStage::Joining => "error joining thread: "@,
        }
    }

    /// How the message of a failure at this stage begins.
    pub fn describe(&self) -> (what: &'static str)
        ensures
            what@ == self.what(),
    {
        match self {
            RenderStage::Staging => "error saving page to temp: ",
            RenderStage::Resolving => "error creating url from path: ",
            RenderStage::Navigating => "error navigating to page: ",
            RenderStage::Exporting => "error printing to PDF: ",
            RenderStage::Joining => "error joining thread: ",
        }
    }
}

/// The failure of a job at `stage` for the given cause: tagged with the
/// stage, its message says what went wrong and why.
pub open spec fn failure(stage: RenderStage, cause: Seq<char>) -> ErrorView {
    ErrorView { stage: stage.tag(), message: stage.what() + cause }
}

/// Every stage has a tag of its own, so failures at different stages carry
/// different tags, whatever their causes.
pub proof fn law_stages_have_tags_of_their_own(one: RenderStage, other: RenderStage)
    ensures
        one.tag() == other.tag() <==> one == other,
        forall|cause: Seq<char>, reason: Seq<char>|
            one != other ==> (#[trigger] failure(one, cause)).stage != (#[trigger] failure(
                other,
                reason,
            )).stage,
{
    reveal_strlit("staging");
    reveal_strlit("resolving");
    reveal_strlit("navigating");
    reveal_strlit("exporting");
    reveal_strlit("joining");
    if one != other {
        assert(one.tag()[0] != other.tag()[0]);
    }
}

/// The failure of a job at `stage` for the given cause.
pub fn fail(stage: RenderStage, cause: &str) -> (error: Error)
    ensures
        error@ == failure(stage, cause@),
{
    Error::caused(stage.name(), stage.describe(), cause)
}

/// What the backend is told when it exports a page.
#[derive(Clone, Copy, Debug, PartialEq, Eq, Structural)]
pub struct PdfOptions {
    /// Whether the paper lies on its side.
    pub landscape: bool,
    /// Whether a header and a footer are printed.
    pub display_header_footer: bool,
    /// Whether background graphics are printed.
    pub print_background: bool,
    /// Scale of the rendering, in percent.
    pub scale_percent: u32,
    /// Whether only the first page is exported.
    pub single_page: bool,
    /// Width of the paper.
    pub paper_width: Inches,
    /// Height of the paper.
    pub paper_height: Inches,
    /// Top margin.
    pub margin_top: Inches,
    /// Bottom margin.
    pub margin_bottom: Inches,
    /// Left margin.
    pub margin_left: Inches,
    /// Right margin.
    pub margin_right: Inches,
}

impl PdfOptions {
    /// The export options for a page layout: upright paper of the given size
    /// and margins, with background graphics, without header and footer, at
    /// full scale, one page.
    pub open spec fn of(properties: PageProperties) -> PdfOptions {
        PdfOptions {
            landscape: false,
            display_header_footer: false,
            print_background: true,
            scale_percent: 100,
            single_page: true,
            paper_width: properties.paper_width,
            paper_height: properties.paper_height,
            margin_top: properties.margin_top,
            margin_bottom: properties.margin_bottom,
            margin_left: properties.margin_left,
            margin_right: properties.margin_right,
        }
    }

    /// The export options for a page layout.
    pub fn for_page(properties: &PageProperties) -> (options: PdfOptions)
        ensures
            options == PdfOptions::of(*properties),
    {
        PdfOptions {
            landscape: false,
            display_header_footer: false,
            print_background: true,
            scale_percent: 100,
            single_page: true,
            paper_width: properties.paper_width,
            paper_height: properties.paper_height,
            margin_top: properties.margin_top,
            margin_bottom: properties.margin_bottom,
            margin_left: properties.margin_left,
            margin_right: properties.margin_right,
        }
    }
}

/// Name of the temporary file that holds the document of the ticket with
/// the given id: `page_<id>.html`.
pub open spec fn page_file_name(id: Seq<u8>) -> Seq<char> {
    "page_"@ + ascii_text(id) + ".html"@
}

/// Tickets with different ids never share a temporary file: the name of the
/// file determines the id.
pub proof fn law_file_names_tell_ids_apart(one: Seq<u8>, other: Seq<u8>)
    requires
        page_file_name(one) == page_file_name(other),
    ensures
        one == other,
{
    reveal_strlit("page_");
    reveal_strlit(".html");
    let name = page_file_name(one);
    assert(name.len() == 5 + one.len() + 5);
    assert(name.len() == 5 + other.len() + 5);
    assert forall|i: int| 0 <= i < one.len() implies one[i] == other[i] by {
        assert(name[5 + i] == ascii_text(one)[i]);
        assert(page_file_name(other)[5 + i] == ascii_text(other)[i]);
    }
    assert(one =~= other);
}

/// Name of the temporary file that holds the document of the ticket.
pub fn stage_file_name(ticket: &RenderTicket) -> (name: String)
    ensures
        name@ == page_file_name(ticket@.id),
        valid_id(ticket@.id),
{
    let id: String = ticket.get_id();
    let mut name: String = concat("page_", id.as_str());
    push_str(&mut name, ".html");
    name
}

/// Whether the text is an address in the `file` scheme.
pub open spec fn is_file_url(url: Seq<char>) -> bool {
    "file://"@.is_prefix_of(url)
}

/// What the resolution of a path into an address can come to: an address in
/// the `file` scheme, or nothing.
pub open spec fn is_resolution(resolution: Result<Seq<char>, ()>) -> bool {
    resolution matches Ok(url) ==> is_file_url(url)
}

/// The mathematical content of a resolution: the address as a sequence of
/// characters.
pub open spec fn resolution_view(resolution: Result<String, ()>) -> Result<Seq<char>, ()> {
    match resolution {
        Ok(url) => Ok(url@),
        Err(()) => Err(()),
    }
}

/// The address of a file, if its path has one.
///
/// Trusted: calls `url::Url::from_file_path` and hands back the text of the
/// address. On success the address begins with `file://`, which the function
/// writes first on every platform. Whether a path has an address depends on
/// the platform's notion of an absolute path, so the contract leaves open
/// which of the two results comes.
#[verifier::external_body]
fn file_url(path: &PathBuf) -> (url: Result<String, ()>)
    ensures
        is_resolution(resolution_view(url)),
{
    match url::Url::from_file_path(path) {
        Ok(url) => Ok(String::from(url)),
        Err(()) => Err(()),
    }
}

/// Where a job stands.
#[derive(Clone, Copy, Debug, PartialEq, Eq, Structural)]
pub enum RenderState {
    /// Accepted, no slot asked for yet.
    Pending,
    /// Every slot was taken at the last look; waiting to look again.
    AwaitingSlot,
    /// A slot is leased; the document is being written to a temporary file.
    Staging,
    /// The session was sent to the document's address.
    Navigating,
    /// The session accepted the address; waiting for the page to load.
    Loading,
    /// The page reported that it has loaded.
    Navigated,
    /// The page did not report that it has loaded. The job goes on.
    NavigationTimedOut,
    /// The page is being exported.
    Exporting,
    /// The job ended with the PDF.
    Done,
    /// The job ended without one, at the given stage.
    Failed(RenderStage),
}

impl RenderState {
    /// Whether the job has ended.
    pub open spec fn is_terminal(self) -> bool {
        self is Done || self is Failed
    }

    /// Whether the job is at work on a slot: past admission and not ended.
    pub open spec fn on_slot(self) -> bool {
        !(self is Pending || self is AwaitingSlot || self is Done || self is Failed)
    }

    /// The number of events a job in this state still takes before it ends,
    /// at most. Admission is not counted: how long a job waits for a slot
    /// depends on the other jobs.
    pub open spec fn remaining(self) -> nat {
        match self {
            RenderState::Pending => 6,
            RenderState::AwaitingSlot => 6,
            RenderState::Staging => 5,
            RenderState::Navigating => 4,
            RenderState::Loading => 3,
            RenderState::Navigated => 2,
            RenderState::NavigationTimedOut => 2,
            RenderState::Exporting => 1,
            RenderState::Done => 0,
            RenderState::Failed(_) => 0,
        }
    }

    /// Whether the job has ended.
    pub fn finished(&self) -> (ended: bool)
        ensures
            ended == self.is_terminal(),
    {
        match self {
            RenderState::Done => true,
            RenderState::Failed(_) => true,
            _ => false,
        }
    }
}

/// What the outside world reports back to a job.
pub enum RenderEvent {
    /// The document was written to the file at this path, or it was not.
    Staged(Result<PathBuf, String>),
    /// The session accepted the address, or it did not.
    NavigateReturned(Result<(), String>),
    /// The page reported that it has loaded, or the wait for that failed.
    LoadReturned(Result<(), String>),
    /// An action that needed nothing from outside has been taken note of.
    Proceed,
    /// The session exported the page as these bytes, or it did not.
    Exported(Result<Vec<u8>, String>),
}

/// The mathematical content of a [`RenderEvent`].
pub enum RenderEventView {
    Staged(Result<PathBuf, Seq<char>>),
    NavigateReturned(Result<(), Seq<char>>),
    LoadReturned(Result<(), Seq<char>>),
    Proceed,
    Exported(Result<Seq<u8>, Seq<char>>),
}

impl View for RenderEvent {
    type V = RenderEventView;

    open spec fn view(&self) -> RenderEventView {
        match *self {
            RenderEvent::Staged(Ok(path)) => RenderEventView::Staged(Ok(path)),
            RenderEvent::Staged(Err(cause)) => RenderEventView::Staged(Err(cause@)),
            RenderEvent::NavigateReturned(Ok(())) => RenderEventView::NavigateReturned(Ok(())),
            RenderEvent::NavigateReturned(Err(cause)) => RenderEventView::NavigateReturned(
                Err(cause@),
            ),
            RenderEvent::LoadReturned(Ok(())) => RenderEventView::LoadReturned(Ok(())),
            RenderEvent::LoadReturned(Err(cause)) => RenderEventView::LoadReturned(Err(cause@)),
            RenderEvent::Proceed => RenderEventView::Proceed,
            RenderEvent::Exported(Ok(bytes)) => RenderEventView::Exported(Ok(bytes@)),
            RenderEvent::Exported(Err(cause)) => RenderEventView::Exported(Err(cause@)),
        }
    }
}

/// What a job asks the outside world to do next.
pub enum RenderAction {
    /// Wait this many milliseconds, then ask for a slot again.
    Wait(u64),
    /// Write `html` to a file of this name in the temporary directory and
    /// report [`RenderEvent::Staged`].
    Stage { file_name: String, html: String },
    /// Send the session to the address and report
    /// [`RenderEvent::NavigateReturned`].
    Navigate { session: usize, url: String },
    /// Wait for the page of the session to load and report
    /// [`RenderEvent::LoadReturned`].
    AwaitLoad { session: usize },
    /// Nothing to do outside; report [`RenderEvent::Proceed`].
    Continue,
    /// Log the warning and report [`RenderEvent::Proceed`].
    Warn(String),
    /// Export the page of the session and report [`RenderEvent::Exported`].
    Export { session: usize, options: PdfOptions },
    /// The job has ended with this result.
    Finish(Result<Vec<u8>, Error>),
    /// The job was not waiting for the event; nothing changed and there is
    /// nothing to do.
    Idle,
}

/// The mathematical content of a [`RenderAction`].
pub enum RenderActionView {
    Wait(u64),
    Stage { file_name: Seq<char>, html: Seq<char> },
    Navigate { session: usize, url: Seq<char> },
    AwaitLoad { session: usize },
    Continue,
    Warn(Seq<char>),
    Export { session: usize, options: PdfOptions },
    Finish(Result<Seq<u8>, ErrorView>),
    Idle,
}

impl View for RenderAction {
    type V = RenderActionView;

    open spec fn view(&self) -> RenderActionView {
        match *self {
            RenderAction::Wait(millis) => RenderActionView::Wait(millis),
            RenderAction::Stage { file_name, html } => RenderActionView::Stage {
                file_name: file_name@,
                html: html@,
            },
            RenderAction::Navigate { session, url } => RenderActionView::Navigate {
                session,
                url: url@,
            },
            RenderAction::AwaitLoad { session } => RenderActionView::AwaitLoad { session },
            RenderAction::Continue => RenderActionView::Continue,
            RenderAction::Warn(warning) => RenderActionView::Warn(warning@),
            RenderAction::Export { session, options } => RenderActionView::Export {
                session,
                options,
            },
            RenderAction::Finish(Ok(bytes)) => RenderActionView::Finish(Ok(bytes@)),
            RenderAction::Finish(Err(error)) => RenderActionView::Finish(Err(error@)),
            RenderAction::Idle => RenderActionView::Idle,
        }
    }
}

/// How the warning about a page that did not report its load begins.
pub open spec fn load_warning() -> Seq<char> {
    "error waiting until navigated: "@
}

/// The text that stands for the cause when a path has no address.
pub open spec fn no_address() -> Seq<char> {
    "()"@
}

/// The mathematical content of a [`RenderJob`].
pub struct RenderJobView {
    /// Where the job stands.
    pub state: RenderState,
    /// The session of the slot that the job holds the lease of.
    pub session: Option<usize>,
    /// The ticket of the job, made when the slot was leased.
    pub ticket: Option<RenderTicketView>,
}

impl RenderJobView {
    /// Whether the job has what its state needs: at work on a slot, it holds
    /// the slot's session and a ticket with a proper id.
    pub open spec fn wf(self) -> bool {
        self.state.on_slot() ==> {
            &&& self.session is Some
            &&& self.ticket matches Some(ticket)
            &&& valid_id(ticket.id)
        }
    }

    /// This job in another state.
    pub open spec fn at(self, state: RenderState) -> RenderJobView {
        RenderJobView { state, ..self }
    }

    /// A job that has been accepted and nothing more.
    pub open spec fn pending() -> RenderJobView {
        RenderJobView { state: RenderState::Pending, session: None, ticket: None }
    }

    /// The job that begins on the slot of `session` for `ticket`, and its
    /// first action: to stage the document.
    pub open spec fn started(session: usize, ticket: RenderTicketView) -> (
        RenderJobView,
        RenderActionView,
    ) {
        (
            RenderJobView {
                state: RenderState::Staging,
                session: Some(session),
                ticket: Some(ticket),
            },
            RenderActionView::Stage {
                file_name: page_file_name(ticket.id),
                html: ticket.html,
            },
        )
    }

    /// The job ends at `stage` for `cause`.
    pub open spec fn failed(self, stage: RenderStage, cause: Seq<char>) -> (
        RenderJobView,
        RenderActionView,
    ) {
        (self.at(RenderState::Failed(stage)), RenderActionView::Finish(Err(failure(stage, cause))))
    }

    /// What follows once the path of the staged file has been resolved: with
    /// an address the session is sent there, without one the job ends. A job
    /// that is not staging is not waiting for this.
    pub open spec fn resolved(self, resolution: Result<Seq<char>, ()>) -> (
        RenderJobView,
        RenderActionView,
    ) {
        if self.state == RenderState::Staging {
            match resolution {
                Ok(url) => (
                    self.at(RenderState::Navigating),
                    RenderActionView::Navigate { session: self.session->0, url },
                ),
                Err(()) => self.failed(RenderStage::Resolving, no_address()),
            }
        } else {
            (self, RenderActionView::Idle)
        }
    }

    /// The transition function of the rendering protocol: the state a job
    /// moves to on an event, and what it asks for next. `resolution` is what
    /// resolving the path of the staged file comes to; it matters only for a
    /// staging job on the event that the file was written.
    ///
    /// Steps follow one another in a fixed order and the first failure ends
    /// the job, with one exception: a page that does not report its load
    /// makes the job warn and go on to the export.
    pub open spec fn next(self, event: RenderEventView, resolution: Result<Seq<char>, ()>) -> (
        RenderJobView,
        RenderActionView,
    ) {
        match (self.state, event) {
            (RenderState::Staging, RenderEventView::Staged(Ok(_))) => self.resolved(resolution),
            (RenderState::Staging, RenderEventView::Staged(Err(cause))) => self.failed(
                RenderStage::Staging,
                cause,
            ),
            (RenderState::Navigating, RenderEventView::NavigateReturned(Ok(()))) => (
                self.at(RenderState::Loading),
                RenderActionView::AwaitLoad { session: self.session->0 },
            ),
            (RenderState::Navigating, RenderEventView::NavigateReturned(Err(cause))) => self.failed(
                RenderStage::Navigating,
                cause,
            ),
            (RenderState::Loading, RenderEventView::LoadReturned(Ok(()))) => (
                self.at(RenderState::Navigated),
                RenderActionView::Continue,
            ),
            (RenderState::Loading, RenderEventView::LoadReturned(Err(cause))) => (
                self.at(RenderState::NavigationTimedOut),
                RenderActionView::Warn(load_warning() + cause),
            ),
            (RenderState::Navigated, RenderEventView::Proceed) => self.export(),
            (RenderState::NavigationTimedOut, RenderEventView::Proceed) => self.export(),
            (RenderState::Exporting, RenderEventView::Exported(Ok(bytes))) => (
                self.at(RenderState::Done),
                RenderActionView::Finish(Ok(bytes)),
            ),
            (RenderState::Exporting, RenderEventView::Exported(Err(cause))) => self.failed(
                RenderStage::Exporting,
                cause,
            ),
            _ => (self, RenderActionView::Idle),
        }
    }

    /// The job goes on to export the page with the layout of its ticket.
    pub open spec fn export(self) -> (RenderJobView, RenderActionView) {
        (
            self.at(RenderState::Exporting),
            RenderActionView::Export {
                session: self.session->0,
                options: PdfOptions::of(self.ticket->0.page_properties),
            },
        )
    }
}

/// One rendering job: where it stands, the slot it works on and its ticket.
pub struct RenderJob {
    state: RenderState,
    session: Option<usize>,
    ticket: Option<RenderTicket>,
}

impl View for RenderJob {
    type V = RenderJobView;

    closed spec fn view(&self) -> RenderJobView {
        RenderJobView {
            state: self.state,
            session: self.session,
            ticket: match self.ticket {
                Some(ticket) => Some(ticket@),
                None => None,
            },
        }
    }
}

impl RenderJob {
    #[verifier::type_invariant]
    spec fn inv(&self) -> bool {
        self@.wf()
    }

    /// A job that has been accepted and nothing more.
    pub fn new() -> (job: RenderJob)
        ensures
            job@ == RenderJobView::pending(),
    {
        RenderJob { state: RenderState::Pending, session: None, ticket: None }
    }

    /// Where the job stands.
    pub fn state(&self) -> (state: RenderState)
        ensures
            state == self@.state,
            self@.wf(),
    {
        proof {
            use_type_invariant(self);
        }
        self.state
    }

    /// The session of the slot that the job holds the lease of.
    pub fn session(&self) -> (session: Option<usize>)
        ensures
            session == self@.session,
    {
        self.session
    }

    /// The ticket of the job.
    pub fn ticket(&self) -> (ticket: Option<&RenderTicket>)
        ensures
            ticket is Some <==> self@.ticket is Some,
            ticket matches Some(held) ==> self@.ticket == Some(held@),
    {
        self.ticket.as_ref()
    }

    /// Notes that every slot was taken when the job asked for one. A job that
    /// is past admission is left as it is.
    pub fn await_slot(&mut self)
        ensures
            final(self)@ == (if old(self)@.state is Pending || old(self)@.state is AwaitingSlot {
                old(self)@.at(RenderState::AwaitingSlot)
            } else {
                old(self)@
            }),
    {
        match self.state {
            RenderState::Pending => {
                self.state = RenderState::AwaitingSlot;
            },
            _ => {},
        }
    }

    /// Takes the resolution of the staged file's path and says what follows.
    pub fn resolved(&mut self, resolution: Result<String, ()>) -> (action: RenderAction)
        ensures
            (final(self)@, action@) == old(self)@.resolved(resolution_view(resolution)),
    {
        proof {
            use_type_invariant(&*self);
        }
        match self.state {
            RenderState::Staging => match (resolution, self.session) {
                (Ok(url), Some(session)) => {
                    self.state = RenderState::Navigating;
                    RenderAction::Navigate { session, url }
                },
                (Err(()), _) => {
                    self.state = RenderState::Failed(RenderStage::Resolving);
                    RenderAction::Finish(Err(fail(RenderStage::Resolving, "()")))
                },
                // A staging job holds a session: this arm is never taken.
                (Ok(_), None) => RenderAction::Idle,
            },
            _ => RenderAction::Idle,
        }
    }

    /// Takes an event and says what follows: the one step of the rendering
    /// protocol. An event that the job is not waiting for changes nothing.
    ///
    /// On the event that the document was staged, the path is resolved into
    /// an address on the way; see [`resolved`](Self::resolved) for what
    /// follows from each outcome of that.
    pub fn advance(&mut self, event: RenderEvent) -> (action: RenderAction)
        ensures
            exists|resolution: Result<Seq<char>, ()>|
                is_resolution(resolution) && (final(self)@, action@) == #[trigger] old(self)@.next(
                    event@,
                    resolution,
                ),
    {
        proof {
            use_type_invariant(&*self);
        }
        let ghost before = self@;
        let ghost happened = event@;
        let ghost nothing: Result<Seq<char>, ()> = Err(());
        match (self.state, event) {
            (RenderState::Staging, RenderEvent::Staged(Ok(path))) => {
                let resolution = file_url(&path);
                let ghost outcome = resolution_view(resolution);
                let action = self.resolved(resolution);
                assert((self@, action@) == before.next(happened, outcome));
                action
            },
            (RenderState::Staging, RenderEvent::Staged(Err(cause))) => {
                self.state = RenderState::Failed(RenderStage::Staging);
                let action = RenderAction::Finish(Err(fail(RenderStage::Staging, cause.as_str())));
                assert((self@, action@) == before.next(happened, nothing));
                action
            },
            (RenderState::Navigating, RenderEvent::NavigateReturned(Ok(()))) => {
                let action = match self.session {
                    Some(session) => {
                        self.state = RenderState::Loading;
                        RenderAction::AwaitLoad { session }
                    },
                    // A navigating job holds a session: this arm is never taken.
                    None => RenderAction::Idle,
                };
                assert((self@, action@) == before.next(happened, nothing));
                action
            },
            (RenderState::Navigating, RenderEvent::NavigateReturned(Err(cause))) => {
                self.state = RenderState::Failed(RenderStage::Navigating);
                let action = RenderAction::Finish(
                    Err(fail(RenderStage::Navigating, cause.as_str())),
                );
                assert((self@, action@) == before.next(happened, nothing));
                action
            },
            (RenderState::Loading, RenderEvent::LoadReturned(Ok(()))) => {
                self.state = RenderState::Navigated;
                let action = RenderAction::Continue;
                assert((self@, action@) == before.next(happened, nothing));
                action
            },
            (RenderState::Loading, RenderEvent::LoadReturned(Err(cause))) => {
                self.state = RenderState::NavigationTimedOut;
                let action = RenderAction::Warn(
                    concat("error waiting until navigated: ", cause.as_str()),
                );
                assert((self@, action@) == before.next(happened, nothing));
                action
            },
            (RenderState::Navigated, RenderEvent::Proceed) => {
                let action = self.export();
                assert((self@, action@) == before.next(happened, nothing));
                action
            },
            (RenderState::NavigationTimedOut, RenderEvent::Proceed) => {
                let action = self.export();
                assert((self@, action@) == before.next(happened, nothing));
                action
            },
            (RenderState::Exporting, RenderEvent::Exported(Ok(bytes))) => {
                self.state = RenderState::Done;
                let action = RenderAction::Finish(Ok(bytes));
                assert((self@, action@) == before.next(happened, nothing));
                action
            },
            (RenderState::Exporting, RenderEvent::Exported(Err(cause))) => {
                self.state = RenderState::Failed(RenderStage::Exporting);
                let action = RenderAction::Finish(
                    Err(fail(RenderStage::Exporting, cause.as_str())),
                );
                assert((self@, action@) == before.next(happened, nothing));
                action
            },
            _ => {
                let action = RenderAction::Idle;
                assert((self@, action@) == before.next(happened, nothing));
                action
            },
        }
    }

    /// Goes on to the export with the layout of the ticket.
    fn export(&mut self) -> (action: RenderAction)
        requires
            old(self)@.state is Navigated || old(self)@.state is NavigationTimedOut,
        ensures
            (final(self)@, action@) == old(self)@.export(),
    {
        proof {
            use_type_invariant(&*self);
        }
        match (self.session, &self.ticket) {
            (Some(session), Some(ticket)) => {
                let options = PdfOptions::for_page(ticket.get_page_properties());
                self.state = RenderState::Exporting;
                RenderAction::Export { session, options }
            },
            // A job on a slot holds a session and a ticket: this arm is never
            // taken.
            _ => RenderAction::Idle,
        }
    }
}

/// One slot of the pool: a backend session and whether it is leased.
#[derive(Clone, Copy, Debug, PartialEq, Eq, Structural)]
pub struct TabContainer {
    session: usize,
    locked: bool,
}

impl TabContainer {
    /// The backend session that the slot wraps, by its position in the
    /// backend's list of sessions.
    pub closed spec fn spec_session(&self) -> usize {
        self.session
    }

    /// Whether the slot is leased.
    pub closed spec fn spec_locked(&self) -> bool {
        self.locked
    }

    /// A free slot around the given session.
    pub fn new(session: usize) -> (tab: TabContainer)
        ensures
            tab.spec_session() == session,
            !tab.spec_locked(),
    {
        TabContainer { session, locked: false }
    }

    /// The backend session that the slot wraps.
    pub fn session(&self) -> (session: usize)
        ensures
            session == self.spec_session(),
    {
        self.session
    }

    /// Whether the slot is leased.
    pub fn is_locked(&self) -> (locked: bool)
        ensures
            locked == self.spec_locked(),
    {
        self.locked
    }

    /// Takes the lease of the slot if nobody holds it, without waiting.
    /// Tells whether the lease was taken.
    pub fn try_lock(&mut self) -> (taken: bool)
        ensures
            taken == !old(self).spec_locked(),
            final(self).spec_locked(),
            final(self).spec_session() == old(self).spec_session(),
    {
        if self.locked {
            false
        } else {
            self.locked = true;
            true
        }
    }

    /// Gives the lease of the slot back.
    pub fn unlock(&mut self)
        ensures
            !final(self).spec_locked(),
            final(self).spec_session() == old(self).spec_session(),
    {
        self.locked = false;
    }

    /// Begins to render the ticket on this slot: the job starts out staging,
    /// and its first action is to write the document to its temporary file.
    pub fn render_html(&self, ticket: RenderTicket) -> (begun: (RenderJob, RenderAction))
        ensures
            (begun.0@, begun.1@) == RenderJobView::started(self.spec_session(), ticket@),
    {
        let file_name: String = stage_file_name(&ticket);
        let html: String = ticket.get_html().clone();
        let job = RenderJob {
            state: RenderState::Staging,
            session: Some(self.session),
            ticket: Some(ticket),
        };
        (job, RenderAction::Stage { file_name, html })
    }
}

/// What the caller of a rendering thread does next.
#[derive(Clone, Copy, Debug, PartialEq, Eq, Structural)]
pub enum Poll {
    /// The thread is still at work: wait this many milliseconds, then look
    /// again.
    Wait(u64),
    /// The thread has finished: collect its result.
    Join,
}

/// What to do about a rendering thread that has or has not finished.
pub fn poll(finished: bool) -> (next: Poll)
    ensures
        next == (if finished {
            Poll::Join
        } else {
            Poll::Wait(WAIT_INTERVAL)
        }),
{
    if finished {
        Poll::Join
    } else {
        Poll::Wait(WAIT_INTERVAL)
    }
}

/// The mathematical content of the result of a job.
pub open spec fn rendered_view(rendered: Result<Vec<u8>, Error>) -> Result<Seq<u8>, ErrorView> {
    match rendered {
        Ok(bytes) => Ok(bytes@),
        Err(error) => Err(error@),
    }
}

/// What a job comes to once its thread has been collected: the thread's own
/// result, or, where the thread could not be collected, a failure of its own
/// kind that names the cause.
pub open spec fn joined_view(outcome: Result<Result<Vec<u8>, Error>, String>) -> Result<
    Seq<u8>,
    ErrorView,
> {
    match outcome {
        Ok(rendered) => rendered_view(rendered),
        Err(cause) => Err(failure(RenderStage::Joining, cause@)),
    }
}

/// What a job comes to once its thread has been collected.
pub fn joined(outcome: Result<Result<Vec<u8>, Error>, String>) -> (rendered: Result<
    Vec<u8>,
    Error,
>)
    ensures
        rendered_view(rendered) == joined_view(outcome),
{
    match outcome {
        Ok(rendered) => rendered,
        Err(cause) => Err(fail(RenderStage::Joining, cause.as_str())),
    }
}

/// A page that does not report its load does not fail the job: the job
/// warns, goes on to export the page with the layout of its ticket, and ends
/// with exactly the bytes that the export gives.
pub proof fn law_load_failure_is_not_fatal(
    job: RenderJobView,
    cause: Seq<char>,
    bytes: Seq<u8>,
    resolution: Result<Seq<char>, ()>,
)
    requires
        job.wf(),
        job.state is Loading,
    ensures
        ({
            let (warned, warning) = job.next(RenderEventView::LoadReturned(Err(cause)), resolution);
            let (exporting, export) = warned.next(RenderEventView::Proceed, resolution);
            let (done, finish) = exporting.next(RenderEventView::Exported(Ok(bytes)), resolution);
            &&& warned.state is NavigationTimedOut
            &&& warning == RenderActionView::Warn(load_warning() + cause)
            &&& exporting.state is Exporting
            &&& export == RenderActionView::Export {
                session: job.session->0,
                options: PdfOptions::of(job.ticket->0.page_properties),
            }
            &&& done.state is Done
            &&& finish == RenderActionView::Finish(Ok(bytes))
        }),
{
}

/// Whether a job in `state` is waiting for the event.
pub open spec fn awaited(state: RenderState, event: RenderEventView) -> bool {
    match (state, event) {
        (RenderState::Staging, RenderEventView::Staged(_)) => true,
        (RenderState::Navigating, RenderEventView::NavigateReturned(_)) => true,
        (RenderState::Loading, RenderEventView::LoadReturned(_)) => true,
        (RenderState::Navigated, RenderEventView::Proceed) => true,
        (RenderState::NavigationTimedOut, RenderEventView::Proceed) => true,
        (RenderState::Exporting, RenderEventView::Exported(_)) => true,
        _ => false,
    }
}

/// Every event that a job is waiting for brings its end closer, so a job
/// that has a slot ends after five events at most; any other event changes
/// nothing. A step never takes the job to another slot or ticket, and ends
/// it exactly when it hands out a result.
pub proof fn law_every_step_brings_the_end_closer(
    job: RenderJobView,
    event: RenderEventView,
    resolution: Result<Seq<char>, ()>,
)
    requires
        job.wf(),
    ensures
        ({
            let (after, action) = job.next(event, resolution);
            &&& after.wf()
            &&& after.session == job.session
            &&& after.ticket == job.ticket
            &&& awaited(job.state, event) ==> after.state.remaining() < job.state.remaining()
            &&& !awaited(job.state, event) ==> after == job && action is Idle
            &&& action is Finish <==> after.state.is_terminal() && awaited(job.state, event)
            &&& action matches RenderActionView::Finish(Ok(_)) ==> after.state is Done
            &&& action matches RenderActionView::Finish(Err(_)) ==> after.state is Failed
        }),
{
}

/// The first failure ends the job for good: a job that has ended stays as
/// it is whatever is reported to it, and asks for nothing more.
pub proof fn law_ended_job_stays_ended(
    job: RenderJobView,
    event: RenderEventView,
    resolution: Result<Seq<char>, ()>,
)
    requires
        job.state.is_terminal(),
    ensures
        job.next(event, resolution) == (job, RenderActionView::Idle),
{
}

/// Each step that fails ends the job at its own stage, with a failure that
/// names the stage and carries the cause.
pub proof fn law_failures_are_told_apart(job: RenderJobView, cause: Seq<char>)
    ensures
        job.state is Staging ==> job.next(RenderEventView::Staged(Err(cause)), Err(()))
            == job.failed(RenderStage::Staging, cause),
        job.state is Staging ==> forall|path: PathBuf|
            #[trigger] job.next(RenderEventView::Staged(Ok(path)), Err(())) == job.failed(
                RenderStage::Resolving,
                no_address(),
            ),
        job.state is Navigating ==> job.next(RenderEventView::NavigateReturned(Err(cause)), Err(()))
            == job.failed(RenderStage::Navigating, cause),
        job.state is Exporting ==> job.next(RenderEventView::Exported(Err(cause)), Err(()))
            == job.failed(RenderStage::Exporting, cause),
{
}

} // verus!
