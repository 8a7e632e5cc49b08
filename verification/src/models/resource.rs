//! Resources: links worth keeping, with their tags.

use crate::models::conversion::ConversionError;
use crate::models::id::EntityId;
use vstd::prelude::*;

verus! {

/// The texts of a list, in order.
pub open spec fn texts(list: Seq<String>) -> Seq<Seq<char>> {
    list.map_values(|text: String| text@)
}

/// A stored resource.
#[derive(Debug)]
pub struct Resource {
    pub _id: EntityId,
    pub title: String,
    pub link: String,
    pub tags: Vec<String>,
    pub description: String,
}

pub struct ResourceView {
    pub id: EntityId,
    pub title: Seq<char>,
    pub link: Seq<char>,
    pub tags: Seq<Seq<char>>,
    pub description: Seq<char>,
}

impl View for Resource {
    type V = ResourceView;

    open spec fn view(&self) -> ResourceView {
        ResourceView {
            id: self._id,
            title: self.title@,
            link: self.link@,
            tags: texts(self.tags@),
            description: self.description@,
        }
    }
}

/// A resource as it travels.
#[derive(Debug)]
pub struct ResourceRequest {
    pub title: String,
    pub link: String,
    pub tags: Vec<String>,
    pub description: String,
}

pub struct ResourceRequestView {
    pub title: Seq<char>,
    pub link: Seq<char>,
    pub tags: Seq<Seq<char>>,
    pub description: Seq<char>,
}

impl View for ResourceRequest {
    type V = ResourceRequestView;

    open spec fn view(&self) -> ResourceRequestView {
        ResourceRequestView {
            title: self.title@,
            link: self.link@,
            tags: texts(self.tags@),
            description: self.description@,
        }
    }
}

impl Resource {
    /// The resource that a request becomes under a given identity: every
    /// field is taken over as it stands.
    pub open spec fn assembled(item: ResourceRequestView, id: EntityId) -> ResourceView {
        ResourceView {
            id,
            title: item.title,
            link: item.link,
            tags: item.tags,
            description: item.description,
        }
    }

    /// Turns a request into the resource with identity `id`.
    pub fn convert(item: ResourceRequest, id: EntityId) -> (resource: Resource)
        ensures
            resource@ == Self::assembled(item@, id),
    {
        Resource {
            _id: id,
            title: item.title,
            link: item.link,
            tags: item.tags,
            description: item.description,
        }
    }

    /// Turns a request into a resource under a fresh identity. A resource
    /// carries no date, so this never fails.
    pub fn try_from(item: ResourceRequest) -> (converted: Result<Resource, ConversionError>)
        ensures
            converted matches Ok(resource) && resource._id.is_valid() && resource@
                == Self::assembled(item@, resource._id),
    {
        Ok(Self::convert(item, EntityId::fresh()))
    }

    /// The resource as it travels: everything but the identity.
    pub fn to_request(self) -> (item: ResourceRequest)
        ensures
            item@ == (ResourceRequestView {
                title: self@.title,
                link: self@.link,
                tags: self@.tags,
                description: self@.description,
            }),
    {
        ResourceRequest {
            title: self.title,
            link: self.link,
            tags: self.tags,
            description: self.description,
        }
    }
}

} // verus!
