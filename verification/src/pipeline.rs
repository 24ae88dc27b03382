//! The lookup as a state machine. The caller owns the transport and the
//! terminal; this module decides.
//!
//! `Stage::begin` turns the command line into the first action. The caller
//! performs each `Action::Fetch`, decodes the body into the shape the request
//! expects, and hands the outcome to `Stage::next`, until an action other
//! than a fetch comes back: `Action::Render` with the page's text, or
//! `Action::Fail` with the error that ended the lookup.

use crate::client::{
    docs_request, docs_url, document_attributes, document_request, document_url, first_match,
    latest_version,
    provider_request, providers_url, resolve_document, resolve_latest_version, resolve_provider,
    versions_request, versions_url, Request, RequestView, Shape,
};
use crate::error::{LookupError, LookupErrorView, Missing};
use crate::identifier::{parts_of, split, Args};
use crate::registry::{
    DataResponse, DocsAttributes, DocsAttributesView, Empty, Resource, ResourceView,
    VersionAttributes, VersionAttributesView,
};
use vstd::prelude::*;

verus! {

/// What the caller does next.
#[derive(Debug, PartialEq, Eq)]
pub enum Action {
    /// Perform the request and report its outcome.
    Fetch(Request),
    /// Write the text to the terminal. The lookup succeeded.
    Render(String),
    /// Report the error. The lookup failed and nothing is rendered.
    Fail(LookupError),
}

/// Mathematical model of [`Action`].
pub enum ActionView {
    Fetch(RequestView),
    Render(Seq<char>),
    Fail(LookupErrorView),
}

impl View for Action {
    type V = ActionView;

    open spec fn view(&self) -> ActionView {
        match self {
            Action::Fetch(request) => ActionView::Fetch(request@),
            Action::Render(text) => ActionView::Render(text@),
            Action::Fail(e) => ActionView::Fail(e@),
        }
    }
}

impl Clone for Action {
    fn clone(&self) -> (copy: Action)
        ensures
            copy == *self,
    {
        match self {
            Action::Fetch(request) => Action::Fetch(request.clone()),
            Action::Render(text) => Action::Render(text.clone()),
            Action::Fail(e) => Action::Fail(e.clone()),
        }
    }
}

/// The outcome of the request that was last handed out.
#[derive(Debug, PartialEq, Eq)]
pub enum Event {
    /// The decoded body of a request that expected `Shape::Providers`.
    Providers(DataResponse<Vec<Resource<Empty>>>),
    /// The decoded body of a request that expected `Shape::Versions`.
    Versions(DataResponse<Vec<Resource<VersionAttributes>>>),
    /// The decoded body of a request that expected `Shape::Docs`.
    Docs(DataResponse<Vec<Resource<Empty>>>),
    /// The decoded body of a request that expected `Shape::Document`.
    Document(DataResponse<Resource<DocsAttributes>>),
    /// The transport failed, the status was not a success, or the body did
    /// not decode.
    Failed { cause: String },
    /// The request did not complete in time.
    TimedOut,
}

/// Mathematical model of [`Event`].
pub enum EventView {
    Providers(Seq<ResourceView<Empty>>),
    Versions(Seq<ResourceView<VersionAttributesView>>),
    Docs(Seq<ResourceView<Empty>>),
    Document(ResourceView<DocsAttributesView>),
    Failed { cause: Seq<char> },
    TimedOut,
}

impl View for Event {
    type V = EventView;

    open spec fn view(&self) -> EventView {
        match self {
            Event::Providers(response) => EventView::Providers(response@),
            Event::Versions(response) => EventView::Versions(response@),
            Event::Docs(response) => EventView::Docs(response@),
            Event::Document(response) => EventView::Document(response@),
            Event::Failed { cause } => EventView::Failed { cause: cause@ },
            Event::TimedOut => EventView::TimedOut,
        }
    }
}

impl Clone for Event {
    fn clone(&self) -> (copy: Event)
        ensures
            copy@ == self@,
    {
        match self {
            Event::Providers(response) => Event::Providers(response.clone()),
            Event::Versions(response) => Event::Versions(response.clone()),
            Event::Docs(response) => Event::Docs(response.clone()),
            Event::Document(response) => Event::Document(response.clone()),
            Event::Failed { cause } => Event::Failed { cause: cause.clone() },
            Event::TimedOut => Event::TimedOut,
        }
    }
}

/// How far a lookup has come: which response it awaits, and what it still
/// needs from earlier steps.
#[derive(Debug, PartialEq, Eq)]
pub enum Stage {
    /// The providers were asked for; `resource` is the slug to look up later.
    AwaitingProviders { resource: String },
    /// The provider's versions were asked for.
    AwaitingVersions { resource: String },
    /// The documentation entries were asked for.
    AwaitingDocs,
    /// The full document was asked for.
    AwaitingDocument,
    /// The lookup has rendered or failed. No request is open.
    Finished,
}

/// Mathematical model of [`Stage`].
pub enum StageView {
    AwaitingProviders { resource: Seq<char> },
    AwaitingVersions { resource: Seq<char> },
    AwaitingDocs,
    AwaitingDocument,
    Finished,
}

impl View for Stage {
    type V = StageView;

    open spec fn view(&self) -> StageView {
        match self {
            Stage::AwaitingProviders { resource } => StageView::AwaitingProviders {
                resource: resource@,
            },
            Stage::AwaitingVersions { resource } => StageView::AwaitingVersions {
                resource: resource@,
            },
            Stage::AwaitingDocs => StageView::AwaitingDocs,
            Stage::AwaitingDocument => StageView::AwaitingDocument,
            Stage::Finished => StageView::Finished,
        }
    }
}

impl Clone for Stage {
    fn clone(&self) -> (copy: Stage)
        ensures
            copy == *self,
    {
        match self {
            Stage::AwaitingProviders { resource } => Stage::AwaitingProviders {
                resource: resource.clone(),
            },
            Stage::AwaitingVersions { resource } => Stage::AwaitingVersions {
                resource: resource.clone(),
            },
            Stage::AwaitingDocs => Stage::AwaitingDocs,
            Stage::AwaitingDocument => Stage::AwaitingDocument,
            Stage::Finished => Stage::Finished,
        }
    }
}

/// The error for a response that the stage does not await.
pub open spec fn unexpected() -> LookupErrorView {
    LookupErrorView::Fetch { cause: "unexpected response"@ }
}

/// The lookup ends with `e`.
pub open spec fn fail(e: LookupErrorView) -> (StageView, ActionView) {
    (StageView::Finished, ActionView::Fail(e))
}

impl StageView {
    /// The first stage and action of a lookup of the identifier `input`.
    pub open spec fn begin(input: Seq<char>) -> (StageView, ActionView) {
        match parts_of(input) {
            Some((provider, resource)) => (
                StageView::AwaitingProviders { resource },
                ActionView::Fetch(
                    RequestView { url: providers_url(provider), expects: Shape::Providers },
                ),
            ),
            None => fail(LookupErrorView::Parse),
        }
    }

    /// The stage and action that follow `event` at this stage.
    ///
    /// A failed or timed-out request ends the lookup, and so does an empty
    /// collection. A response of the awaited shape leads to the next request,
    /// or, for the document, to rendering its content. Any other response
    /// ends the lookup as unexpected.
    pub open spec fn next(self, event: EventView) -> (StageView, ActionView) {
        match (self, event) {
            (_, EventView::Failed { cause }) => fail(LookupErrorView::Fetch { cause }),
            (_, EventView::TimedOut) => fail(LookupErrorView::Timeout),
            (StageView::AwaitingProviders { resource }, EventView::Providers(providers)) => {
                match first_match(providers, Missing::Provider) {
                    Ok(provider) => (
                        StageView::AwaitingVersions { resource },
                        ActionView::Fetch(
                            RequestView {
                                url: versions_url(provider.id),
                                expects: Shape::Versions,
                            },
                        ),
                    ),
                    Err(e) => fail(e),
                }
            },
            (StageView::AwaitingVersions { resource }, EventView::Versions(versions)) => {
                match latest_version(versions) {
                    Ok(version_id) => (
                        StageView::AwaitingDocs,
                        ActionView::Fetch(
                            RequestView {
                                url: docs_url(resource, version_id),
                                expects: Shape::Docs,
                            },
                        ),
                    ),
                    Err(e) => fail(e),
                }
            },
            (StageView::AwaitingDocs, EventView::Docs(docs)) => {
                match document_request(docs) {
                    Ok(request) => (StageView::AwaitingDocument, ActionView::Fetch(request)),
                    Err(e) => fail(e),
                }
            },
            (StageView::AwaitingDocument, EventView::Document(page)) => (
                StageView::Finished,
                ActionView::Render(page.attributes.content),
            ),
            _ => fail(unexpected()),
        }
    }
}

impl StageView {
    /// The shape of the response that this stage awaits, if a request is
    /// open.
    pub open spec fn awaits(self) -> Option<Shape> {
        match self {
            StageView::AwaitingProviders { .. } => Some(Shape::Providers),
            StageView::AwaitingVersions { .. } => Some(Shape::Versions),
            StageView::AwaitingDocs => Some(Shape::Docs),
            StageView::AwaitingDocument => Some(Shape::Document),
            StageView::Finished => None,
        }
    }

    /// The number of requests that a lookup at this stage can still need.
    pub open spec fn requests_left(self) -> nat {
        match self {
            StageView::AwaitingProviders { .. } => 4,
            StageView::AwaitingVersions { .. } => 3,
            StageView::AwaitingDocs => 2,
            StageView::AwaitingDocument => 1,
            StageView::Finished => 0,
        }
    }
}

/// What a lookup asks for is what it then awaits: the shape that a request
/// expects is the shape that the stage beside it takes.
pub proof fn lemma_awaits_what_was_asked(input: Seq<char>, stage: StageView, event: EventView)
    ensures
        StageView::begin(input).1 matches ActionView::Fetch(request) ==> StageView::begin(
            input,
        ).0.awaits() == Some(request.expects),
        stage.next(event).1 matches ActionView::Fetch(request) ==> stage.next(event).0.awaits()
            == Some(request.expects),
{
}

/// The steps follow one another in a fixed order, none is repeated, and so a
/// lookup makes at most four requests: every event brings an open lookup
/// nearer its end, and leaves a finished one finished.
pub proof fn lemma_steps_in_order(input: Seq<char>, stage: StageView, event: EventView)
    ensures
        StageView::begin(input).0.requests_left() <= 4,
        stage.next(event).0.requests_left() < stage.requests_left() || (stage
            == StageView::Finished && stage.next(event).0 == StageView::Finished),
{
}

/// The actions that a lookup at `stage` answers `events` with, in order.
pub open spec fn actions(stage: StageView, events: Seq<EventView>) -> Seq<ActionView>
    decreases events.len(),
{
    if events.len() == 0 {
        Seq::empty()
    } else {
        let (then, action) = stage.next(events.first());
        seq![action] + actions(then, events.drop_first())
    }
}

/// A lookup stays open exactly as long as it asks for another request:
/// rendering and failing both finish it.
pub proof fn lemma_open_while_fetching(stage: StageView, event: EventView)
    ensures
        stage.next(event).1 is Fetch <==> stage.next(event).0 != StageView::Finished,
{
}

/// Text is rendered only for a document that arrives when the document is
/// awaited, and it is that document's content, unchanged. A lookup that
/// fails at any step renders nothing.
pub proof fn lemma_render_only_the_page(stage: StageView, event: EventView)
    requires
        stage.next(event).1 is Render,
    ensures
        stage == StageView::AwaitingDocument,
        event is Document,
        stage.next(event).1 == ActionView::Render(event->Document_0.attributes.content),
{
}

/// Every event is answered with one action.
pub proof fn lemma_one_action_per_event(stage: StageView, events: Seq<EventView>)
    ensures
        actions(stage, events).len() == events.len(),
    decreases events.len(),
{
    if events.len() > 0 {
        lemma_one_action_per_event(stage.next(events.first()).0, events.drop_first());
    }
}

/// A finished lookup answers every event with a failure: it hands out no
/// further request and renders nothing.
pub proof fn lemma_finished_is_final(events: Seq<EventView>)
    ensures
        forall|i: int|
            0 <= i < events.len() ==> #[trigger] actions(StageView::Finished, events)[i] is Fail,
    decreases events.len(),
{
    if events.len() > 0 {
        let later = events.drop_first();
        lemma_finished_is_final(later);
        lemma_one_action_per_event(StageView::Finished, later);
        assert forall|i: int| 0 <= i < events.len() implies #[trigger] actions(
            StageView::Finished,
            events,
        )[i] is Fail by {
            if i > 0 {
                assert(actions(StageView::Finished, events)[i] == actions(
                    StageView::Finished,
                    later,
                )[i - 1]);
            }
        }
    }
}

/// When the providers come back empty, the lookup fails with the provider
/// as missing, and whatever is reported afterwards, no request follows:
/// neither the versions nor the documentation are ever asked for.
pub proof fn lemma_no_provider_no_further_request(
    resource: Seq<char>,
    providers: Seq<ResourceView<Empty>>,
    later: Seq<EventView>,
)
    requires
        providers.len() == 0,
    ensures
        ({
            let answers = actions(
                StageView::AwaitingProviders { resource },
                seq![EventView::Providers(providers)] + later,
            );
            &&& answers.len() == later.len() + 1
            &&& answers[0] == ActionView::Fail(LookupErrorView::NotFound(Missing::Provider))
            &&& forall|i: int| 0 <= i < answers.len() ==> !(#[trigger] answers[i] is Fetch)
        }),
{
    let events = seq![EventView::Providers(providers)] + later;
    let answers = actions(StageView::AwaitingProviders { resource }, events);
    assert(events.drop_first() =~= later);
    lemma_one_action_per_event(StageView::Finished, later);
    lemma_finished_is_final(later);
    assert forall|i: int| 0 <= i < answers.len() implies !(#[trigger] answers[i] is Fetch) by {
        if i > 0 {
            assert(answers[i] == actions(StageView::Finished, later)[i - 1]);
        }
    }
}

/// For an identifier with a separator, a provider match, a listed version, a
/// documentation match and a document, the lookup asks in turn for the
/// providers of that name, the versions of the first provider, the
/// documentation of the resource under the last version, and the document
/// that the first entry links to; it then renders the document's content as
/// received.
pub proof fn lemma_lookup_renders_page(
    input: Seq<char>,
    providers: Seq<ResourceView<Empty>>,
    versions: Seq<ResourceView<VersionAttributesView>>,
    docs: Seq<ResourceView<Empty>>,
    page: ResourceView<DocsAttributesView>,
)
    requires
        parts_of(input) is Some,
        providers.len() > 0,
        versions.len() > 0,
        docs.len() > 0,
    ensures
        ({
            let (provider, resource) = parts_of(input)->0;
            let (stage, first) = StageView::begin(input);
            &&& first == ActionView::Fetch(
                RequestView { url: providers_url(provider), expects: Shape::Providers },
            )
            &&& actions(
                stage,
                seq![
                    EventView::Providers(providers),
                    EventView::Versions(versions),
                    EventView::Docs(docs),
                    EventView::Document(page),
                ],
            ) == seq![
                ActionView::Fetch(
                    RequestView {
                        url: versions_url(providers.first().id),
                        expects: Shape::Versions,
                    },
                ),
                ActionView::Fetch(
                    RequestView {
                        url: docs_url(resource, versions.last().id),
                        expects: Shape::Docs,
                    },
                ),
                ActionView::Fetch(
                    RequestView {
                        url: document_url(docs.first().links._self),
                        expects: Shape::Document,
                    },
                ),
                ActionView::Render(page.attributes.content),
            ]
        }),
{
    let e1 = EventView::Providers(providers);
    let e2 = EventView::Versions(versions);
    let e3 = EventView::Docs(docs);
    let e4 = EventView::Document(page);
    assert(seq![e1, e2, e3, e4].drop_first() =~= seq![e2, e3, e4]);
    assert(seq![e2, e3, e4].drop_first() =~= seq![e3, e4]);
    assert(seq![e3, e4].drop_first() =~= seq![e4]);
    assert(seq![e4].drop_first() =~= Seq::<EventView>::empty());
    reveal_with_fuel(actions, 5);
}

/// The end of a lookup on a response that the stage does not await.
fn reject() -> (end: (Stage, Action))
    ensures
        (end.0@, end.1@) == fail(unexpected()),
{
    (Stage::Finished, Action::Fail(LookupError::Fetch { cause: "unexpected response".to_owned() }))
}

impl Stage {
    /// Starts a lookup of the resource that the command line names.
    pub fn begin(args: &Args) -> (first: (Stage, Action))
        ensures
            (first.0@, first.1@) == StageView::begin(args@),
    {
        match split(args.resource.as_str()) {
            Ok((provider, resource)) => (
                Stage::AwaitingProviders { resource },
                Action::Fetch(provider_request(provider.as_str())),
            ),
            Err(e) => (Stage::Finished, Action::Fail(e)),
        }
    }

    /// Takes the outcome of the open request and decides what follows.
    pub fn next(self, event: Event) -> (then: (Stage, Action))
        ensures
            (then.0@, then.1@) == self@.next(event@),
    {
        match event {
            Event::Failed { cause } => (
                Stage::Finished,
                Action::Fail(LookupError::Fetch { cause }),
            ),
            Event::TimedOut => (Stage::Finished, Action::Fail(LookupError::Timeout)),
            Event::Providers(response) => match self {
                Stage::AwaitingProviders { resource } => match resolve_provider(&response) {
                    Ok(provider) => (
                        Stage::AwaitingVersions { resource },
                        Action::Fetch(versions_request(provider.id.as_str())),
                    ),
                    Err(e) => (Stage::Finished, Action::Fail(e)),
                },
                _ => reject(),
            },
            Event::Versions(response) => match self {
                Stage::AwaitingVersions { resource } => match resolve_latest_version(&response) {
                    Ok(version_id) => (
                        Stage::AwaitingDocs,
                        Action::Fetch(docs_request(resource.as_str(), version_id)),
                    ),
                    Err(e) => (Stage::Finished, Action::Fail(e)),
                },
                _ => reject(),
            },
            Event::Docs(response) => match self {
                Stage::AwaitingDocs => match resolve_document(&response) {
                    Ok(request) => (Stage::AwaitingDocument, Action::Fetch(request)),
                    Err(e) => (Stage::Finished, Action::Fail(e)),
                },
                _ => reject(),
            },
            Event::Document(response) => match self {
                Stage::AwaitingDocument => (
                    Stage::Finished,
                    Action::Render(document_attributes(response).content),
                ),
                _ => reject(),
            },
        }
    }
}

} // verus!
