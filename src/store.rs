use vstd::prelude::*;
use crate::pubsubtopic::PubsubTopic;
use crate::response::WakuError;

verus! {

/// The continuation token of a paged store query.
pub struct MessageHash(pub String);

impl View for MessageHash {
    type V = Seq<char>;

    open spec fn view(&self) -> Seq<char> {
        self.0@
    }
}

/// One page request of a store query.
pub struct StoreQueryRequest {
    pub pubsub_topic: Option<PubsubTopic>,
    pub content_topics: Vec<String>,
    pub include_data: bool,
    pub time_start: Option<u64>,
    pub time_end: Option<u64>,
    pub pagination_cursor: Option<MessageHash>,
    pub pagination_forward: bool,
}

/// One page of results, with the cursor of the next page if there is one.
pub struct StorePage<T> {
    pub messages: Vec<T>,
    pub pagination_cursor: Option<MessageHash>,
}

/// A store query in progress: the request for the next page and what the
/// earlier pages held, in the order they came.
pub struct StoreQuery<T> {
    request: StoreQueryRequest,
    messages: Vec<T>,
}

/// What follows a page: the next request, the finished result, or the
/// failure that ended the query.
pub enum StoreStep<T> {
    Next(StoreQuery<T>),
    Done(Vec<T>),
    Failed(WakuError),
}

impl<T> StoreQuery<T> {
    /// The request the next page is fetched with.
    pub closed spec fn next_request(&self) -> StoreQueryRequest {
        self.request
    }

    /// The items of the pages received so far, in order of arrival.
    pub closed spec fn collected(&self) -> Seq<T> {
        self.messages@
    }

    /// A query over the given filters, starting at the first page and paging forward.
    pub fn new(
        pubsub_topic: Option<PubsubTopic>,
        content_topics: Vec<String>,
        include_data: bool,
        time_start: Option<u64>,
        time_end: Option<u64>,
    ) -> (r: StoreQuery<T>)
        ensures
            r.next_request() == (StoreQueryRequest {
                pubsub_topic,
                content_topics,
                include_data,
                time_start,
                time_end,
                pagination_cursor: None,
                pagination_forward: true,
            }),
            r.collected() == Seq::<T>::empty(),
    {
        StoreQuery {
            request: StoreQueryRequest {
                pubsub_topic,
                content_topics,
                include_data,
                time_start,
                time_end,
                pagination_cursor: None,
                pagination_forward: true,
            },
            messages: Vec::new(),
        }
    }

    /// The request for the next page.
    pub fn request(&self) -> (r: &StoreQueryRequest)
        ensures
            *r == self.next_request(),
    {
        &self.request
    }

    /// Takes the outcome of fetching the next page. A failure ends the query
    /// and drops what was collected; a page without a cursor ends it with all
    /// items, oldest first (the reverse of their order of arrival); a page
    /// with a cursor asks for the page it names.
    pub fn step(self, page: Result<StorePage<T>, WakuError>) -> (r: StoreStep<T>)
        ensures
            match page {
                Err(e) => r == StoreStep::<T>::Failed(e),
                Ok(p) => match p.pagination_cursor {
                    None => match r {
                        StoreStep::Done(v) => v@ == (self.collected() + p.messages@).reverse(),
                        _ => false,
                    },
                    Some(c) => match r {
                        StoreStep::Next(q) => q.collected() == self.collected() + p.messages@
                            && q.next_request() == (StoreQueryRequest {
                            pagination_cursor: Some(c),
                            ..self.next_request()
                        }),
                        _ => false,
                    },
                },
            },
    {
        match page {
            Err(e) => StoreStep::Failed(e),
            Ok(p) => {
                let StorePage { messages: mut page_messages, pagination_cursor } = p;
                let mut messages = self.messages;
                let mut request = self.request;
                messages.append(&mut page_messages);
                match pagination_cursor {
                    None => StoreStep::Done(reversed(messages)),
                    Some(c) => {
                        request.pagination_cursor = Some(c);
                        StoreStep::Next(StoreQuery { request, messages })
                    },
                }
            },
        }
    }
}

/// The items in reverse order.
pub fn reversed<T>(v: Vec<T>) -> (r: Vec<T>)
    ensures
        r@ == v@.reverse(),
{
    let ghost orig = v@;
    let mut rest = v;
    let mut out: Vec<T> = Vec::new();
    while rest.len() > 0
        invariant
            rest@ == orig.subrange(0, rest@.len() as int),
            out@.len() + rest@.len() == orig.len(),
            forall|k: int| 0 <= k < out@.len() ==> out@[k] == orig[orig.len() - 1 - k],
        decreases rest@.len(),
    {
        let x = rest.pop().unwrap();
        out.push(x);
    }
    assert(out@ =~= orig.reverse());
    out
}

} // verus!
