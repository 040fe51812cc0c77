//! Interception of custom-scheme resource requests.
//!
//! The host supplies a request handler; for each request the engine hands
//! over, the handler either declines or supplies a resource handler that
//! feeds the response bytes. The filter owns the boxed handler whose address
//! is the engine's trampoline context, and frees it at teardown.

use vstd::prelude::*;

verus! {

/// A resource request as the engine describes it to the host.
#[derive(Debug, Clone, PartialEq, Eq)]
pub struct Request {
    pub url: Vec<u8>,
    pub method: Vec<u8>,
    pub referrer: Vec<u8>,
}

/// The response descriptor a resource handler fills in before the first
/// read.
#[derive(Debug, Clone, PartialEq, Eq)]
pub struct ResourceResponse {
    /// The status code reported to the page.
    pub status_code: u32,
    /// The media type reported to the page.
    pub mime_type: Vec<u8>,
}

/// Feeds the bytes of one intercepted resource, implemented by the host.
pub trait ResourceHandler {
    /// Open the resource; `false` aborts the request.
    fn open(&self) -> bool;

    /// Fill in the response descriptor.
    fn get_response(&self, response: &mut ResourceResponse);

    /// Skip `size` bytes, reporting how many were skipped; `false` aborts.
    fn skip(&self, size: usize, skip_bytes: &mut usize) -> bool;

    /// Read into the buffer, reporting how many bytes were produced;
    /// `false` signals the end of the resource.
    fn read(&self, buffer: &mut Vec<u8>, read_bytes: &mut usize) -> bool;

    /// The engine cancelled the request.
    fn cancel(&self);
}

/// Decides which requests to intercept, implemented by the host.
pub trait RequestHandler {
    /// The resource handler this handler supplies.
    type Resource: ResourceHandler;

    /// Intercept the request, or decline it with `None` so the engine
    /// handles it itself.
    fn on_request(&self, request: &Request) -> Option<Self::Resource>;
}

/// Owner of a boxed request handler registered with the engine.
///
/// The handler's address is the trampoline context the engine hands back on
/// every request; it stays owned until the filter is torn down, after which
/// no request reaches the handler.
pub struct RequestFilter<T> {
    handler: T,
    context_alive: bool,
}

impl<T: RequestHandler> RequestFilter<T> {
    /// The host handler this filter owns.
    pub closed spec fn handler(&self) -> T {
        self.handler
    }

    /// Whether the trampoline context is still owned and requests are still
    /// dispatched.
    pub closed spec fn is_context_alive(&self) -> bool {
        self.context_alive
    }

    /// Register a host handler: box it and hand its address to the engine
    /// as the trampoline context.
    pub fn new(handler: T) -> (r: Self)
        ensures
            r.is_context_alive(),
            r.handler() == handler,
    {
        RequestFilter { handler, context_alive: true }
    }

    /// Whether the trampoline context is still owned.
    pub fn context_alive(&self) -> (r: bool)
        ensures
            r == self.is_context_alive(),
    {
        self.context_alive
    }

    /// Dispatch one request to the host handler; a torn-down filter
    /// declines every request without consulting it.
    pub fn on_create_resource_handler(&self, request: &Request) -> (r: Option<T::Resource>)
        ensures
            !self.is_context_alive() ==> r is None,
    {
        if self.context_alive {
            self.handler.on_request(request)
        } else {
            Option::None
        }
    }

    /// Tear the filter down: the boxed handler is freed and no request is
    /// dispatched through it again.
    pub fn destroy(&mut self)
        requires
            old(self).is_context_alive(),
        ensures
            !final(self).is_context_alive(),
    {
        self.context_alive = false;
    }
}

} // verus!
