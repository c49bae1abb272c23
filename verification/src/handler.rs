//! The request handler: one request text in, one response out, with the
//! store it owns advanced exactly as `spec_handle` says.

use vstd::prelude::*;
use crate::dispatch::Dispatch;
use crate::dispatch::Response;
use crate::dispatch::StoreAction;
use crate::dispatch::dispatch;
use crate::dispatch::respond_create;
use crate::dispatch::respond_delete;
use crate::dispatch::respond_read_all;
use crate::dispatch::respond_read_one;
use crate::dispatch::respond_update;
use crate::dispatch::spec_handle;
use crate::store::MemStore;
use crate::store::StoreV;

verus! {

/// The dispatcher bound to the store it serves.
pub struct RequestHandler {
    store: MemStore,
}

impl View for RequestHandler {
    type V = StoreV;

    closed spec fn view(&self) -> StoreV {
        self.store@
    }
}

impl RequestHandler {
    /// Takes ownership of the store for the process lifetime.
    pub fn new(store: MemStore) -> (h: Self)
        ensures
            h@ == store@,
    {
        RequestHandler { store }
    }

    /// Serves one request: parse, route, perform the store operation,
    /// and answer. The whole exchange is `spec_handle` of the request
    /// text.
    pub fn handle_request(&mut self, request: &str) -> (resp: Response)
        ensures
            final(self)@ == spec_handle(old(self)@, request@).0,
            resp@ == spec_handle(old(self)@, request@).1,
    {
        match dispatch(request) {
            Dispatch::Reply(r) => r,
            Dispatch::Act(a) => match a {
                StoreAction::Insert { name, email } => respond_create(
                    self.store.create_user(name.as_str(), email.as_str()),
                ),
                StoreAction::FetchById { id } => respond_read_one(self.store.get_user(id)),
                StoreAction::FetchAll => respond_read_all(self.store.get_all_users()),
                StoreAction::UpdateById { id, name, email } => respond_update(
                    self.store.update_user(id, name.as_str(), email.as_str()),
                ),
                StoreAction::DeleteById { id } => respond_delete(self.store.delete_user(id)),
            },
        }
    }
}

} // verus!
