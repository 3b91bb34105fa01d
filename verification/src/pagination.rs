//! Generic pagination engine: a step machine that decides, page by page,
//! which request to issue next and when a collection is fully assembled.
//!
//! The engine itself performs no transport. A driver asks [`PageFetch::next_request`]
//! for the next page request, performs it, and feeds the decoded page back
//! through [`PageFetch::apply_response`]; the loop ends when `next_request`
//! returns `None` or a response cannot make progress.

use vstd::prelude::*;

use crate::errors::PaginationError;

verus! {

/// The provider caps page sizes at this many items per request.
pub const PROVIDER_MAX_PAGE_SIZE: u64 = 50;

/// How the next page is addressed: by numeric offset, or by an opaque
/// cursor returned in the previous page's envelope.
#[derive(Clone, Copy, Debug, PartialEq, Eq, Structural)]
pub enum PageMode {
    Offset,
    Cursor,
}

/// Immutable description of one paginated endpoint: its addressing mode and
/// the page size each request asks for.
#[derive(Clone, Copy, Debug, PartialEq, Eq, Structural)]
pub struct PageDescriptor {
    pub mode: PageMode,
    pub page_size: u64,
}

impl PageDescriptor {
    /// A descriptor is well formed when its page size is positive and within
    /// the provider's cap.
    pub open spec fn wf(self) -> bool {
        1 <= self.page_size <= PROVIDER_MAX_PAGE_SIZE
    }

    pub fn new(mode: PageMode, page_size: u64) -> (r: Self)
        requires
            1 <= page_size <= PROVIDER_MAX_PAGE_SIZE,
        ensures
            r.mode == mode,
            r.page_size == page_size,
            r.wf(),
    {
        PageDescriptor { mode, page_size }
    }
}

/// One page request the driver must perform: `offset` is meaningful in
/// offset mode, `after` in cursor mode (`None` for the first page).
#[derive(Clone, Debug)]
pub struct PageRequest {
    pub offset: u64,
    pub after: Option<String>,
    pub limit: u64,
}

/// One decoded page as the provider reported it: the page's items in server
/// order, the declared total size of the collection, and (cursor mode) the
/// cursor for the next page, absent on the last one.
#[derive(Clone, Debug)]
pub struct PageResponse {
    pub items: Vec<String>,
    pub total: u64,
    pub after: Option<String>,
}

/// The fully assembled collection: every item in the order the provider
/// returned them, plus the total the provider declared.
#[derive(Clone, Debug)]
pub struct CollectionResult {
    pub items: Vec<String>,
    pub total: u64,
}

/// The engine's state while walking one endpoint.
pub struct PageFetch {
    pub descriptor: PageDescriptor,
    pub items: Vec<String>,
    pub total: Option<u64>,
    pub cursor: Option<String>,
    pub complete: bool,
}

impl PageFetch {
    /// Internal consistency: nothing is accumulated before the first
    /// response, and a cursor is only held in cursor mode.
    pub open spec fn wf(self) -> bool {
        &&& self.descriptor.wf()
        &&& (self.total is None ==> self.items@.len() == 0 && !self.complete
            && self.cursor is None)
        &&& (self.descriptor.mode == PageMode::Offset ==> self.cursor is None)
        &&& (self.complete ==> self.total is Some)
    }

    /// Accumulated item count so far.
    pub open spec fn count(self) -> nat {
        self.items@.len()
    }

    /// Whether a successful response ends the walk: the declared total is
    /// reached, or (cursor mode) the server omitted the next cursor.
    pub open spec fn response_completes(self, resp: PageResponse) -> bool {
        ||| self.count() + resp.items@.len() >= resp.total
        ||| (self.descriptor.mode == PageMode::Cursor && resp.after is None)
    }

    /// A response makes no progress when it adds nothing while the declared
    /// total is still out of reach.
    pub open spec fn response_stalls(self, resp: PageResponse) -> bool {
        resp.items@.len() == 0 && self.count() < resp.total
    }

    /// Start a walk: nothing accumulated, no total known yet.
    pub fn new(descriptor: PageDescriptor) -> (r: Self)
        requires
            descriptor.wf(),
        ensures
            r.wf(),
            r.descriptor == descriptor,
            r.items@ =~= Seq::<String>::empty(),
            r.total is None,
            r.cursor is None,
            !r.complete,
    {
        PageFetch { descriptor, items: Vec::new(), total: None, cursor: None, complete: false }
    }

    /// The next request to perform, or `None` once the collection is
    /// complete. In offset mode the next offset is exactly the accumulated
    /// count; in cursor mode the request carries the cursor of the previous
    /// page (none for the first page).
    pub fn next_request(&self) -> (r: Option<PageRequest>)
        requires
            self.wf(),
        ensures
            r is Some <==> !self.complete,
            match r {
                Some(req) => {
                    &&& req.limit == self.descriptor.page_size
                    &&& (self.descriptor.mode == PageMode::Offset ==> req.offset
                        == self.count() && req.after is None)
                    &&& (self.descriptor.mode == PageMode::Cursor ==> req.offset == 0
                        && req.after == self.cursor)
                },
                None => true,
            },
    {
        if self.complete {
            return None;
        }
        match self.descriptor.mode {
            PageMode::Offset => Some(
                PageRequest {
                    offset: self.items.len() as u64,
                    after: None,
                    limit: self.descriptor.page_size,
                },
            ),
            PageMode::Cursor => {
                let after = match &self.cursor {
                    Some(c) => Some(c.clone()),
                    None => None,
                };
                Some(PageRequest { offset: 0, after, limit: self.descriptor.page_size })
            },
        }
    }

    /// Fold one page into the state. On success the page's items are
    /// appended in server order and the walk is complete exactly when the
    /// declared total is reached or (cursor mode) the server omitted the
    /// next cursor. A page that yields zero new items while the total is
    /// still out of reach is rejected rather than retried, and a page that
    /// arrives after completion is rejected, both leaving the state
    /// unchanged.
    pub fn apply_response(&mut self, resp: PageResponse) -> (r: Result<(), PaginationError>)
        requires
            old(self).wf(),
        ensures
            final(self).wf(),
            final(self).descriptor == old(self).descriptor,
            r is Ok <==> !old(self).complete && !old(self).response_stalls(resp),
            match r {
                Ok(()) => {
                    &&& final(self).items@ == old(self).items@ + resp.items@
                    &&& final(self).total == Some(resp.total)
                    &&& final(self).complete == old(self).response_completes(resp)
                    &&& final(self).cursor == (if old(self).descriptor.mode == PageMode::Cursor {
                        resp.after
                    } else {
                        Option::<String>::None
                    })
                },
                Err(e) => {
                    &&& *final(self) == *old(self)
                    &&& (e == PaginationError::AlreadyComplete <==> old(self).complete)
                    &&& (e == PaginationError::NoProgress <==> !old(self).complete && old(
                        self,
                    ).response_stalls(resp))
                },
            },
    {
        if self.complete {
            return Err(PaginationError::AlreadyComplete);
        }
        let fresh = resp.items.len();
        if fresh == 0 && (self.items.len() as u64) < resp.total {
            return Err(PaginationError::NoProgress);
        }
        let mut incoming = resp.items;
        self.items.append(&mut incoming);
        let reached_total = (self.items.len() as u64) >= resp.total;
        let omitted_cursor = matches!(self.descriptor.mode, PageMode::Cursor)
            && resp.after.is_none();
        self.complete = reached_total || omitted_cursor;
        self.total = Some(resp.total);
        self.cursor = if matches!(self.descriptor.mode, PageMode::Cursor) {
            resp.after
        } else {
            None
        };
        Ok(())
    }

    /// Hand the assembled collection to the caller once the walk is
    /// complete: every accumulated item in order, with the declared total.
    pub fn into_result(self) -> (r: CollectionResult)
        requires
            self.wf(),
            self.complete,
        ensures
            r.items@ == self.items@,
            Some(r.total) == self.total,
    {
        let total = match self.total {
            Some(t) => t,
            None => 0,  // unreachable: completion implies a declared total
        };
        CollectionResult { items: self.items, total }
    }
}

/// Law: a cursor-mode page without an `after` cursor completes the walk,
/// even while the accumulated count is below the declared total — after
/// folding such a page in, the engine issues no further request. The one
/// page left out is one that also carries zero new items below the total:
/// there the no-progress rule takes precedence and the walk ends with
/// [`PaginationError::NoProgress`] instead of a result.
pub proof fn lemma_omitted_cursor_terminates(state: PageFetch, resp: PageResponse)
    requires
        state.descriptor.mode == PageMode::Cursor,
        resp.after is None,
        !state.response_stalls(resp),
    ensures
        state.response_completes(resp),
{
}

} // verus!
