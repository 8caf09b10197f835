//! What the dispatcher asks of the task store and of the execution nodes: requests, each
//! an address and a body to post there.

use crate::address::UrlError;
use vstd::prelude::*;

verus! {

/// What a request stands for.
pub struct RequestView {
    pub url: Seq<char>,
    pub body: Seq<char>,
}

/// One request: a JSON body to post to an address.
#[derive(Debug)]
pub struct Request {
    pub url: String,
    pub body: String,
}

impl View for Request {
    type V = RequestView;

    open spec fn view(&self) -> RequestView {
        RequestView { url: self.url@, body: self.body@ }
    }
}

/// Why nothing can be sent for a task.
#[derive(Debug, Clone, Copy, PartialEq, Eq, Structural)]
pub enum DispatchError {
    /// The address of the task's update in the task store could not be put together.
    StoreAddress(UrlError),
    /// The address of the execution node could not be put together.
    NodeAddress(UrlError),
}

} // verus!
