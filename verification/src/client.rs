//! The registry client without its transport: which URL each lookup asks
//! for, and what each decoded response resolves to.
//!
//! A lookup is three dependent steps. The provider is found by namespace and
//! name; its latest version is the last one the registry lists; the
//! documentation entry is found by version, category and slug, and points to
//! the full document.

use crate::error::{outcome, LookupError, LookupErrorView, Missing};
use crate::registry::{
    DataResponse, DocsAttributes, Empty, Resource, ResourceView, VersionAttributes,
    VersionAttributesView,
};
use vstd::prelude::*;

verus! {

/// Scheme and host of the registry.
pub const ORIGIN: &'static str = "https://registry.terraform.io";

/// Seconds after which the caller gives a request up as timed out.
pub const TIMEOUT_SECONDS: u64 = 30;

/// URL of the providers named `name` under the namespace `hashicorp`.
pub open spec fn providers_url(name: Seq<char>) -> Seq<char> {
    ORIGIN@ + "/v2/providers?filter[namespace]=hashicorp&filter[name]="@ + name
}

/// URL of the versions of the provider `provider_id`.
pub open spec fn versions_url(provider_id: Seq<char>) -> Seq<char> {
    ORIGIN@ + "/v2/providers/"@ + provider_id + "/provider-versions"@
}

/// URL of the documentation entries of category `resources` with slug `slug`
/// under the provider version `version_id`.
pub open spec fn docs_url(slug: Seq<char>, version_id: Seq<char>) -> Seq<char> {
    ORIGIN@ + "/v2/provider-docs?filter[provider-version]="@ + version_id
        + "&filter[category]=resources&filter[slug]="@ + slug
}

/// URL of the full document at `self_path`, a path relative to the origin.
pub open spec fn document_url(self_path: Seq<char>) -> Seq<char> {
    ORIGIN@ + self_path
}

/// The first of the entities that a lookup matched, or the lookup as missing
/// if it matched none.
pub open spec fn first_match<A>(matches: Seq<ResourceView<A>>, what: Missing) -> Result<
    ResourceView<A>,
    LookupErrorView,
> {
    if matches.len() == 0 {
        Err(LookupErrorView::NotFound(what))
    } else {
        Ok(matches.first())
    }
}

/// The id of the last of the listed versions, whatever their version numbers
/// and publication times.
pub open spec fn latest_version(versions: Seq<ResourceView<VersionAttributesView>>) -> Result<
    Seq<char>,
    LookupErrorView,
> {
    if versions.len() == 0 {
        Err(LookupErrorView::NotFound(Missing::Version))
    } else {
        Ok(versions.last().id)
    }
}

/// The latest version is chosen by position alone. Two listings with the
/// same ids in the same order have the same latest version, whatever the
/// version numbers and publication times of their entries.
pub proof fn lemma_latest_version_ignores_attributes(
    a: Seq<ResourceView<VersionAttributesView>>,
    b: Seq<ResourceView<VersionAttributesView>>,
)
    requires
        a.len() == b.len(),
        forall|i: int| 0 <= i < a.len() ==> a[i].id == b[i].id,
    ensures
        latest_version(a) == latest_version(b),
{
}

/// The request for the full document of the first matching entry.
pub open spec fn document_request(docs: Seq<ResourceView<Empty>>) -> Result<
    RequestView,
    LookupErrorView,
> {
    match first_match(docs, Missing::Resource) {
        Ok(entry) => Ok(
            RequestView { url: document_url(entry.links._self), expects: Shape::Document },
        ),
        Err(e) => Err(e),
    }
}

/// What the body of a response is decoded into.
#[derive(Clone, Copy, Debug, PartialEq, Eq, Structural)]
pub enum Shape {
    /// An array of entities without attributes: the matching providers.
    Providers,
    /// An array of provider versions.
    Versions,
    /// An array of entities without attributes: the matching documentation
    /// entries.
    Docs,
    /// One documentation page.
    Document,
}

/// An unauthenticated GET and the shape its response must have.
#[derive(Debug, PartialEq, Eq)]
pub struct Request {
    pub url: String,
    pub expects: Shape,
}

impl Clone for Request {
    fn clone(&self) -> (copy: Request)
        ensures
            copy == *self,
    {
        Request { url: self.url.clone(), expects: self.expects }
    }
}

/// Mathematical model of [`Request`].
pub struct RequestView {
    pub url: Seq<char>,
    pub expects: Shape,
}

impl View for Request {
    type V = RequestView;

    open spec fn view(&self) -> RequestView {
        RequestView { url: self.url@, expects: self.expects }
    }
}

/// The request for the providers named `name`.
pub fn provider_request(name: &str) -> (request: Request)
    ensures
        request@ == (RequestView { url: providers_url(name@), expects: Shape::Providers }),
{
    let mut url = ORIGIN.to_owned();
    url.append("/v2/providers?filter[namespace]=hashicorp&filter[name]=");
    url.append(name);
    Request { url, expects: Shape::Providers }
}

/// The provider that a providers response resolves to: the first match.
/// Further matches are ignored.
pub fn resolve_provider<'a>(response: &'a DataResponse<Vec<Resource<Empty>>>) -> (found: Result<
    &'a Resource<Empty>,
    LookupError,
>)
    ensures
        outcome(found) == first_match(response@, Missing::Provider),
{
    if response.data.len() == 0 {
        Err(LookupError::NotFound(Missing::Provider))
    } else {
        Ok(&response.data[0])
    }
}

/// The request for the versions of the provider `provider_id`.
pub fn versions_request(provider_id: &str) -> (request: Request)
    ensures
        request@ == (RequestView { url: versions_url(provider_id@), expects: Shape::Versions }),
{
    let mut url = ORIGIN.to_owned();
    url.append("/v2/providers/");
    url.append(provider_id);
    url.append("/provider-versions");
    Request { url, expects: Shape::Versions }
}

/// The id of the latest version in a versions response: that of the last
/// entry. The registry lists versions in ascending order of publication;
/// neither version numbers nor timestamps are compared here.
pub fn resolve_latest_version<'a>(
    response: &'a DataResponse<Vec<Resource<VersionAttributes>>>,
) -> (found: Result<&'a str, LookupError>)
    ensures
        outcome(found) == latest_version(response@),
{
    let n = response.data.len();
    if n == 0 {
        Err(LookupError::NotFound(Missing::Version))
    } else {
        Ok(response.data[n - 1].id.as_str())
    }
}

/// The request for the documentation entries of the resource `slug` under
/// the provider version `version_id`.
pub fn docs_request(slug: &str, version_id: &str) -> (request: Request)
    ensures
        request@ == (RequestView { url: docs_url(slug@, version_id@), expects: Shape::Docs }),
{
    let mut url = ORIGIN.to_owned();
    url.append("/v2/provider-docs?filter[provider-version]=");
    url.append(version_id);
    url.append("&filter[category]=resources&filter[slug]=");
    url.append(slug);
    Request { url, expects: Shape::Docs }
}

/// The request for the full document that a documentation response points
/// to: the origin followed by `links.self` of the first match.
pub fn resolve_document(response: &DataResponse<Vec<Resource<Empty>>>) -> (found: Result<
    Request,
    LookupError,
>)
    ensures
        outcome(found) == document_request(response@),
{
    if response.data.len() == 0 {
        Err(LookupError::NotFound(Missing::Resource))
    } else {
        let mut url = ORIGIN.to_owned();
        url.append(response.data[0].links._self.as_str());
        Ok(Request { url, expects: Shape::Document })
    }
}

/// The attributes of the page in a document response.
pub fn document_attributes(response: DataResponse<Resource<DocsAttributes>>) -> (page:
    DocsAttributes)
    ensures
        page@ == response@.attributes,
{
    response.data.attributes
}

} // verus!
