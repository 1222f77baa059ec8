use crate::assoc::{index_of, lemma_index_of};
use crate::cache::{
    has_key, law_put_keeps_others, law_put_then_lookup, lemma_put_well_formed, lookup,
    put_entries, touch_entries, well_formed, Entries, OrderCache,
};
use crate::error::{StoreError, StoreErrorView};
use crate::gateway::{
    add_order, begins_read, begins_write, get_order_by_uid, OrderRead, OrderWrite, ReadStep,
    ReadVerdict, Reply, WriteStep, WriteVerdict,
};
use crate::model::Order;
use crate::statement::Statement;
use vstd::prelude::*;

verus! {

/// What happened that concerns a fetch.
#[derive(Debug, PartialEq, Eq)]
pub enum FetchEvent {
    /// A caller asks for the order with this identifier.
    Request(String),
    /// The backend replied to the query that was running for this read.
    Reply(OrderRead, Reply),
}

/// What is to be done after a fetch event.
#[derive(Debug, PartialEq, Eq)]
pub enum FetchAction {
    /// Answer the caller with this order.
    Respond(Order),
    /// Run the statement, and come back with this read and the reply.
    Run(OrderRead, Statement),
    /// Answer the caller with this failure.
    Fail(StoreError),
}

/// What happened that concerns a creation.
#[derive(Debug, PartialEq, Eq)]
pub enum CreateEvent {
    /// A caller hands in this order.
    Request(Order),
    /// The backend replied to the statement that was running for this write.
    Reply(OrderWrite, Reply),
}

/// What is to be done after a creation event.
#[derive(Debug, PartialEq, Eq)]
pub enum CreateAction {
    /// Answer the caller with the order, which is stored.
    Respond(Order),
    /// Run the statement, and come back with this write and the reply.
    Run(OrderWrite, Statement),
    /// Answer the caller with this failure.
    Fail(StoreError),
}

/// What the cache holds after a fetch event: a request touches the entry it
/// finds; the order that a read ends with is put under its own identifier;
/// nothing else changes the cache.
pub open spec fn fetch_entries(s: Entries, cap: nat, event: FetchEvent) -> Entries {
    match event {
        FetchEvent::Request(id) => touch_entries(s, id@),
        FetchEvent::Reply(read, reply) => match read.verdict(reply) {
            ReadVerdict::Found(order) => put_entries(s, cap, order.order_uid, order),
            _ => s,
        },
    }
}

/// Whether `action` is what a fetch event calls for, given what the cache
/// holds: a request is answered from the cache where it holds the order,
/// and begins a read otherwise; a reply is answered as the read goes on.
pub open spec fn fetch_answer(s: Entries, event: FetchEvent, action: FetchAction) -> bool {
    match event {
        FetchEvent::Request(id) => match lookup(s, id@) {
            Some(cached) => action matches FetchAction::Respond(order) && order@ == cached,
            None => action matches FetchAction::Run(read, statement) && begins_read(
                id@,
                ReadStep::Run(read, statement),
            ),
        },
        FetchEvent::Reply(read, reply) => match action {
            FetchAction::Respond(order) => read.leads_to(reply, ReadStep::Found(order)),
            FetchAction::Run(next, statement) => read.leads_to(
                reply,
                ReadStep::Run(next, statement),
            ),
            FetchAction::Fail(e) => read.leads_to(reply, ReadStep::Failed(e)),
        },
    }
}

/// What the cache holds after a creation event: the order that a write
/// finishes with becomes the most recent entry; nothing else changes the
/// cache.
pub open spec fn create_entries(s: Entries, cap: nat, event: CreateEvent) -> Entries {
    match event {
        CreateEvent::Request(_) => s,
        CreateEvent::Reply(write, reply) => match write.verdict(reply) {
            WriteVerdict::Finish => put_entries(s, cap, write.order().order_uid, write.order()),
            _ => s,
        },
    }
}

/// Whether `action` is what a creation event calls for: a request begins
/// the write of its order; a reply is answered as the write goes on.
pub open spec fn create_answer(event: CreateEvent, action: CreateAction) -> bool {
    match event {
        CreateEvent::Request(order) => action matches CreateAction::Run(write, statement)
            && begins_write(order@, WriteStep::Run(write, statement)),
        CreateEvent::Reply(write, reply) => match action {
            CreateAction::Respond(order) => write.leads_to(reply, WriteStep::Finished(order)),
            CreateAction::Run(next, statement) => write.leads_to(
                reply,
                WriteStep::Run(next, statement),
            ),
            CreateAction::Fail(e) => write.leads_to(reply, WriteStep::Failed(e)),
        },
    }
}

/// Decides one step of a fetch.
///
/// A request that the cache can answer is answered from it, and the order
/// becomes the most recently used; the backend is not asked. Any other
/// request begins a read from the backend. When the read ends with the
/// order, the order is cached and answered; when it ends with a failure,
/// the failure is answered and the cache is left alone.
pub fn get_order(cache: &mut OrderCache, event: FetchEvent) -> (action: FetchAction)
    requires
        old(cache).wf(),
    ensures
        final(cache).wf(),
        final(cache).capacity() == old(cache).capacity(),
        final(cache).entries() == fetch_entries(
            old(cache).entries(),
            old(cache).capacity(),
            event,
        ),
        fetch_answer(old(cache).entries(), event, action),
{
    let step = match event {
        FetchEvent::Request(id) => match cache.get(&id) {
            Some(order) => {
                return FetchAction::Respond(order);
            },
            None => get_order_by_uid(&id),
        },
        FetchEvent::Reply(read, reply) => read.advance(reply),
    };
    match step {
        ReadStep::Run(read, statement) => FetchAction::Run(read, statement),
        ReadStep::Found(order) => {
            let copy = order.clone();
            cache.put(order.order_uid.clone(), copy);
            FetchAction::Respond(order)
        },
        ReadStep::Failed(e) => FetchAction::Fail(e),
    }
}

/// Decides one step of a creation.
///
/// A request begins the write of its order to the backend. When the write
/// finishes, the cache holds the order from now on as the most recently
/// used entry, in place of any older order with the same identifier, and
/// the order is answered. When the write fails, the failure is answered
/// and the cache is left alone.
pub fn create_order(cache: &mut OrderCache, event: CreateEvent) -> (action: CreateAction)
    requires
        old(cache).wf(),
    ensures
        final(cache).wf(),
        final(cache).capacity() == old(cache).capacity(),
        final(cache).entries() == create_entries(
            old(cache).entries(),
            old(cache).capacity(),
            event,
        ),
        create_answer(event, action),
{
    let step = match event {
        CreateEvent::Request(order) => add_order(order),
        CreateEvent::Reply(write, reply) => write.advance(reply),
    };
    match step {
        WriteStep::Run(write, statement) => CreateAction::Run(write, statement),
        WriteStep::Finished(order) => {
            let copy = order.clone();
            cache.put(order.order_uid.clone(), copy);
            CreateAction::Respond(order)
        },
        WriteStep::Failed(e) => CreateAction::Fail(e),
    }
}

/// An order that was created is fetched from the cache, equal in every
/// field, without a read from the backend: after the reply that finishes
/// the write, a request for the order's identifier is answered with the
/// order.
pub proof fn law_create_then_fetch(
    s: Entries,
    cap: nat,
    write: OrderWrite,
    reply: Reply,
    id: String,
    action: FetchAction,
)
    requires
        write.verdict(reply) == WriteVerdict::Finish,
        id@ == write.order().order_uid,
        fetch_answer(
            create_entries(s, cap, CreateEvent::Reply(write, reply)),
            FetchEvent::Request(id),
            action,
        ),
    ensures
        action matches FetchAction::Respond(order) && order@ == write.order(),
{
    law_put_then_lookup(s, cap, write.order().order_uid, write.order());
}

/// After a read that ended with the order that was asked for, a request for
/// the same identifier is answered from the cache with that order.
pub proof fn law_fetch_then_fetch(
    s: Entries,
    cap: nat,
    read: OrderRead,
    reply: Reply,
    id: String,
    action: FetchAction,
)
    requires
        read.verdict(reply) matches ReadVerdict::Found(found) && found.order_uid == id@,
        fetch_answer(
            fetch_entries(s, cap, FetchEvent::Reply(read, reply)),
            FetchEvent::Request(id),
            action,
        ),
    ensures
        action matches FetchAction::Respond(order) && read.verdict(reply) == ReadVerdict::Found(
            order@,
        ),
{
    let found = read.verdict(reply)->Found_0;
    law_put_then_lookup(s, cap, id@, found);
}

/// After a request that the cache answered, a request for the same
/// identifier is answered from the cache again, with the same order.
pub proof fn law_hit_then_hit(
    s: Entries,
    cap: nat,
    first: String,
    second: String,
    action: FetchAction,
)
    requires
        well_formed(s, cap),
        has_key(s, first@),
        second@ == first@,
        fetch_answer(
            fetch_entries(s, cap, FetchEvent::Request(first)),
            FetchEvent::Request(second),
            action,
        ),
    ensures
        action matches FetchAction::Respond(order) && Some(order@) == lookup(s, first@),
{
    lemma_index_of(s, first@);
    let touched = touch_entries(s, first@);
    assert(touched[0] == s[index_of(s, first@)]);
    lemma_index_of(touched, first@);
}

/// A request for an identifier that the cache does not hold begins a read
/// from the backend and leaves the cache as it was.
pub proof fn law_miss_begins_read(s: Entries, cap: nat, id: String, action: FetchAction)
    requires
        !has_key(s, id@),
        fetch_answer(s, FetchEvent::Request(id), action),
    ensures
        action matches FetchAction::Run(read, statement) && begins_read(
            id@,
            ReadStep::Run(read, statement),
        ),
        fetch_entries(s, cap, FetchEvent::Request(id)) == s,
{
}

/// When the backend has no row for the order that was asked for, the
/// answer is the failure that says so, never an order, and the cache holds
/// what it held before.
pub proof fn law_fetch_unknown(
    s: Entries,
    cap: nat,
    read: OrderRead,
    rows: Vec<crate::row::Row>,
    action: FetchAction,
)
    requires
        read.header().is_none(),
        rows@.len() == 0,
        fetch_answer(s, FetchEvent::Reply(read, Reply::Rows(rows)), action),
    ensures
        action matches FetchAction::Fail(e) && e@ == StoreErrorView::NotFound,
        fetch_entries(s, cap, FetchEvent::Reply(read, Reply::Rows(rows))) == s,
{
}

/// A second creation under the same identifier replaces the first order
/// where the backend stored the second, and leaves the first in the cache
/// where the backend refused it. Either way the cache holds one order for
/// the identifier and as many orders as before the second creation.
pub proof fn law_create_twice(
    s: Entries,
    cap: nat,
    first: OrderWrite,
    first_reply: Reply,
    second: OrderWrite,
    second_reply: Reply,
)
    requires
        well_formed(s, cap),
        first.verdict(first_reply) == WriteVerdict::Finish,
        second.order().order_uid == first.order().order_uid,
    ensures
        ({
            let once = create_entries(s, cap, CreateEvent::Reply(first, first_reply));
            let twice = create_entries(once, cap, CreateEvent::Reply(second, second_reply));
            &&& well_formed(twice, cap)
            &&& twice.len() == once.len()
            &&& lookup(twice, first.order().order_uid) == if second.verdict(second_reply)
                == WriteVerdict::Finish {
                Some(second.order())
            } else {
                Some(first.order())
            }
            &&& second.verdict(second_reply) != WriteVerdict::Finish ==> twice == once
        }),
{
    let uid = first.order().order_uid;
    let once = create_entries(s, cap, CreateEvent::Reply(first, first_reply));
    law_put_then_lookup(s, cap, uid, first.order());
    law_put_then_lookup(once, cap, uid, second.order());
    lemma_put_well_formed(s, cap, uid, first.order());
    lemma_put_well_formed(once, cap, uid, second.order());
    lemma_index_of(once, uid);
}

/// Creating an order leaves every other order that stays in the cache as
/// it was: no field of one order reaches another.
pub proof fn law_create_keeps_others(
    s: Entries,
    cap: nat,
    write: OrderWrite,
    reply: Reply,
    other: Seq<char>,
)
    requires
        well_formed(s, cap),
        other != write.order().order_uid,
        has_key(s, write.order().order_uid) || s.len() < cap || other != s.last().0,
    ensures
        lookup(create_entries(s, cap, CreateEvent::Reply(write, reply)), other) == lookup(
            s,
            other,
        ),
{
    law_put_keeps_others(s, cap, write.order().order_uid, write.order(), other);
}

} // verus!
