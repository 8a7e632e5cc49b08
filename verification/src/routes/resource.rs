//! The handler of the resources: listing.

use crate::models::resource::{Resource, ResourceRequest, ResourceRequestView, ResourceView};
use crate::routes::reply::{Body, Reply, Status};
use crate::services::db::StoreFailure;
use vstd::prelude::*;

verus! {

/// A resource as a listing shows it: without its identity.
pub open spec fn shown(resource: ResourceView) -> ResourceRequestView {
    ResourceRequestView {
        title: resource.title,
        link: resource.link,
        tags: resource.tags,
        description: resource.description,
    }
}

/// The requests of a list, each by its view, in order.
pub open spec fn request_views(list: Seq<ResourceRequest>) -> Seq<ResourceRequestView> {
    list.map_values(|request: ResourceRequest| request@)
}

/// Answers a request for the resources, given what the store fetched: the
/// resources in the order they came in, or a server error without words.
pub fn get_resources(fetched: Result<Vec<Resource>, StoreFailure>) -> (reply: Reply<
    Vec<ResourceRequest>,
>)
    ensures
        match fetched {
            Ok(resources) => reply.status == Status::Success && (reply.body matches Body::Json {
                value,
            } && request_views(value@) == resources@.map_values(
                |resource: Resource| shown(resource@),
            )),
            Err(_) => reply.says(Status::InternalServerError, Seq::empty()),
        },
{
    match fetched {
        Ok(resources) => {
            let ghost given = resources@;
            let ghost wanted = given.map_values(|resource: Resource| shown(resource@));
            let mut rest = resources;
            let mut listing: Vec<ResourceRequest> = Vec::new();
            let ghost mut done: int = 0;
            assert(given.skip(0) =~= given);
            while rest.len() > 0
                invariant
                    0 <= done <= given.len(),
                    rest@ == given.skip(done),
                    wanted == given.map_values(|resource: Resource| shown(resource@)),
                    request_views(listing@) =~= wanted.take(done),
                decreases rest.len(),
            {
                let ghost before = listing@;
                let resource = rest.remove(0);
                assert(resource == given[done]);
                let entry = resource.to_request();
                listing.push(entry);
                proof {
                    assert(request_views(listing@) =~= request_views(before).push(entry@));
                    assert(wanted.take(done + 1) =~= wanted.take(done).push(wanted[done]));
                    assert(given.skip(done).remove(0) =~= given.skip(done + 1));
                    done = done + 1;
                }
            }
            assert(wanted.take(wanted.len() as int) =~= wanted);
            Reply::json(listing)
        },
        Err(_) => {
            let reply = Reply::text(Status::InternalServerError, "");
            proof {
                reveal_strlit("");
                assert(""@ =~= Seq::<char>::empty());
            }
            reply
        },
    }
}

} // verus!
