//! Middleware: layers that look at every request before it is sent and at
//! every response before the caller gets it.
//!
//! A client holds its layers in the order in which they were added; the
//! layer added last is the outermost. A request passes the layers from the
//! outermost to the innermost, a response from the innermost to the
//! outermost.

use crate::request::Request;
use crate::request::RequestView;
use crate::response::Response;
use crate::response::ResponseView;
use vstd::prelude::*;

verus! {

/// One layer. Both filters are functions of what they are given: a layer
/// says in `request_filter` and `response_filter` what it does, and does
/// exactly that.
pub trait Middleware: Send + Sync {
    /// What the layer makes of a request.
    spec fn request_filter(&self, request: RequestView) -> RequestView;

    /// What the layer makes of a response.
    spec fn response_filter(&self, response: ResponseView) -> ResponseView;

    /// Passes a request through the layer on its way out. A request that
    /// can be sent must still be one after the layer (see
    /// [`RequestView::sendable`]).
    fn filter_request(&self, request: Request) -> (out: Request)
        ensures
            out@ == self.request_filter(request@),
            request@.sendable() ==> out@.sendable(),
    ;

    /// Passes a response through the layer on its way in.
    fn filter_response(&self, response: Response) -> (out: Response)
        ensures
            out@ == self.response_filter(response@),
    ;
}

/// A request after it passed all layers, the last one first.
pub open spec fn filter_request_chain(
    layers: Seq<Box<dyn Middleware>>,
    request: RequestView,
) -> RequestView
    decreases layers.len(),
{
    if layers.len() == 0 {
        request
    } else {
        filter_request_chain(layers.drop_last(), layers.last().request_filter(request))
    }
}

/// A response after it passed all layers, the first one first.
pub open spec fn filter_response_chain(
    layers: Seq<Box<dyn Middleware>>,
    response: ResponseView,
) -> ResponseView
    decreases layers.len(),
{
    if layers.len() == 0 {
        response
    } else {
        layers.last().response_filter(filter_response_chain(layers.drop_last(), response))
    }
}

/// Passes a request through all layers, from the outermost to the
/// innermost.
pub fn apply_request(layers: &Vec<Box<dyn Middleware>>, request: Request) -> (out: Request)
    ensures
        out@ == filter_request_chain(layers@, request@),
        request@.sendable() ==> out@.sendable(),
{
    let mut i: usize = layers.len();
    let mut current = request;
    proof {
        assert(layers@.take(i as int) =~= layers@);
    }
    while i > 0
        invariant
            i <= layers.len(),
            filter_request_chain(layers@.take(i as int), current@) == filter_request_chain(
                layers@,
                request@,
            ),
            request@.sendable() ==> current@.sendable(),
        decreases i,
    {
        i = i - 1;
        proof {
            assert(layers@.take(i + 1).drop_last() =~= layers@.take(i as int));
        }
        current = layers[i].filter_request(current);
    }
    current
}

/// Passes a response through all layers, from the innermost to the
/// outermost.
pub fn apply_response(layers: &Vec<Box<dyn Middleware>>, response: Response) -> (out: Response)
    ensures
        out@ == filter_response_chain(layers@, response@),
{
    let mut i: usize = 0;
    let mut current = response;
    while i < layers.len()
        invariant
            i <= layers.len(),
            current@ == filter_response_chain(layers@.take(i as int), response@),
        decreases layers.len() - i,
    {
        proof {
            assert(layers@.take(i + 1).drop_last() =~= layers@.take(i as int));
        }
        current = layers[i].filter_response(current);
        i = i + 1;
    }
    proof {
        assert(layers@.take(layers.len() as int) =~= layers@);
    }
    current
}

} // verus!
