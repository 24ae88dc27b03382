//! The shapes that the registry's JSON responses decode into, and their
//! mathematical models.
//!
//! Every response is an envelope `{ "data": .. }` around one entity or an
//! array of entities. An entity has an `id`, a `type`, `links.self` and
//! `attributes`. Values are never changed once decoded.

use vstd::prelude::*;

verus! {

/// An instant in UTC: whole seconds since the Unix epoch and the nanoseconds
/// within that second.
#[derive(Clone, Copy, Debug, PartialEq, Eq, Structural)]
pub struct Timestamp {
    pub seconds: i64,
    pub nanos: u32,
}

/// The links of an entity.
#[derive(Debug, PartialEq, Eq)]
pub struct Links {
    /// Path of the entity's full document, relative to the registry's origin.
    pub _self: String,
}

impl Clone for Links {
    fn clone(&self) -> (copy: Links)
        ensures
            copy == *self,
    {
        Links { _self: self._self.clone() }
    }
}

/// Mathematical model of [`Links`].
pub struct LinksView {
    pub _self: Seq<char>,
}

impl View for Links {
    type V = LinksView;

    open spec fn view(&self) -> LinksView {
        LinksView { _self: self._self@ }
    }
}

/// Attributes of an entity that is listed without any.
#[derive(Clone, Copy, Debug, PartialEq, Eq, Structural)]
pub struct Empty {}

impl View for Empty {
    type V = Empty;

    open spec fn view(&self) -> Empty {
        *self
    }
}

/// Attributes of a provider version.
#[derive(Debug, PartialEq, Eq)]
pub struct VersionAttributes {
    pub description: String,
    pub downloads: usize,
    pub published_at: Timestamp,
    pub tag: String,
    pub version: String,
}

impl Clone for VersionAttributes {
    fn clone(&self) -> (copy: VersionAttributes)
        ensures
            copy == *self,
    {
        VersionAttributes {
            description: self.description.clone(),
            downloads: self.downloads,
            published_at: self.published_at,
            tag: self.tag.clone(),
            version: self.version.clone(),
        }
    }
}

/// Mathematical model of [`VersionAttributes`].
pub struct VersionAttributesView {
    pub description: Seq<char>,
    pub downloads: nat,
    pub published_at: Timestamp,
    pub tag: Seq<char>,
    pub version: Seq<char>,
}

impl View for VersionAttributes {
    type V = VersionAttributesView;

    open spec fn view(&self) -> VersionAttributesView {
        VersionAttributesView {
            description: self.description@,
            downloads: self.downloads as nat,
            published_at: self.published_at,
            tag: self.tag@,
            version: self.version@,
        }
    }
}

/// Attributes of a documentation page. Only `content` is rendered.
#[derive(Debug, PartialEq, Eq)]
pub struct DocsAttributes {
    pub content: String,
    pub category: String,
    pub slug: String,
    pub subcategory: String,
    pub title: String,
}

impl Clone for DocsAttributes {
    fn clone(&self) -> (copy: DocsAttributes)
        ensures
            copy == *self,
    {
        DocsAttributes {
            content: self.content.clone(),
            category: self.category.clone(),
            slug: self.slug.clone(),
            subcategory: self.subcategory.clone(),
            title: self.title.clone(),
        }
    }
}

/// Mathematical model of [`DocsAttributes`].
pub struct DocsAttributesView {
    pub content: Seq<char>,
    pub category: Seq<char>,
    pub slug: Seq<char>,
    pub subcategory: Seq<char>,
    pub title: Seq<char>,
}

impl View for DocsAttributes {
    type V = DocsAttributesView;

    open spec fn view(&self) -> DocsAttributesView {
        DocsAttributesView {
            content: self.content@,
            category: self.category@,
            slug: self.slug@,
            subcategory: self.subcategory@,
            title: self.title@,
        }
    }
}

/// One entity of the registry: a provider, a provider version, or a
/// documentation entry, told apart by the attributes it carries.
#[derive(Debug, PartialEq, Eq)]
pub struct Resource<A = Empty> {
    pub id: String,
    pub _type: String,
    pub links: Links,
    pub attributes: A,
}

impl<A: Clone> Clone for Resource<A> {
    fn clone(&self) -> (copy: Resource<A>)
        ensures
            copy.id == self.id,
            copy._type == self._type,
            copy.links == self.links,
            cloned(self.attributes, copy.attributes),
    {
        Resource {
            id: self.id.clone(),
            _type: self._type.clone(),
            links: self.links.clone(),
            attributes: self.attributes.clone(),
        }
    }
}

/// Mathematical model of [`Resource`].
pub struct ResourceView<A> {
    pub id: Seq<char>,
    pub _type: Seq<char>,
    pub links: LinksView,
    pub attributes: A,
}

impl<A: View> View for Resource<A> {
    type V = ResourceView<A::V>;

    open spec fn view(&self) -> ResourceView<A::V> {
        ResourceView {
            id: self.id@,
            _type: self._type@,
            links: self.links@,
            attributes: self.attributes@,
        }
    }
}

/// The envelope around every response body.
#[derive(Debug, PartialEq, Eq)]
pub struct DataResponse<T> {
    pub data: T,
}

impl<T: Clone> Clone for DataResponse<T> {
    fn clone(&self) -> (copy: DataResponse<T>)
        ensures
            cloned(self.data, copy.data),
    {
        DataResponse { data: self.data.clone() }
    }
}

/// The models of the entities in a decoded array, in the order received.
pub open spec fn views_of<A: View>(entities: Seq<Resource<A>>) -> Seq<ResourceView<A::V>> {
    entities.map_values(|entity: Resource<A>| entity@)
}

/// An envelope around an array is modelled by the sequence of its entities.
impl<A: View> View for DataResponse<Vec<Resource<A>>> {
    type V = Seq<ResourceView<A::V>>;

    open spec fn view(&self) -> Seq<ResourceView<A::V>> {
        views_of(self.data@)
    }
}

/// An envelope around one entity is modelled by that entity.
impl<A: View> View for DataResponse<Resource<A>> {
    type V = ResourceView<A::V>;

    open spec fn view(&self) -> ResourceView<A::V> {
        self.data@
    }
}

} // verus!
