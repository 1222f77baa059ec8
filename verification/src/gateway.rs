use crate::error::{StoreError, StoreErrorView};
use crate::model::{Order, OrderView};
use crate::row::{
    all_item_rows, get_items_for_order, is_order_row, items_of_rows, map_order_from_row,
    order_of_row, order_row_ok, Row, Value, ValueView,
};
use crate::statement::{
    delivery_statement, insert_delivery, insert_item, insert_order, insert_order_item,
    insert_payment, item_statement, items_query, order_item_statement, order_query,
    order_statement, payment_statement, select_items, select_order, Statement, StatementView,
};
use vstd::prelude::*;

verus! {

/// What the backend answered to one statement.
#[derive(Debug, PartialEq, Eq)]
pub enum Reply {
    /// The statement ran; no rows were asked for.
    Executed,
    /// The statement ran and gave these rows.
    Rows(Vec<Row>),
    /// The statement failed.
    Failed(StoreError),
}

/// The statement at position `i` of the sequence that writes `order`: the
/// delivery, the payment, the header that names both, and then for each
/// item in turn the item and its link to the order.
pub open spec fn write_statement(order: OrderView, delivery_id: i64, i: int) -> StatementView {
    if i == 0 {
        delivery_statement(order.delivery)
    } else if i == 1 {
        payment_statement(order.payment)
    } else if i == 2 {
        order_statement(order, delivery_id)
    } else if (i - 3) % 2 == 0 {
        item_statement(order.items[(i - 3) / 2])
    } else {
        order_item_statement(order.order_uid, order.items[(i - 3) / 2].chrt_id)
    }
}

/// The number of statements that write `order`.
pub open spec fn write_len(order: OrderView) -> int {
    3 + 2 * (order.items.len() as int)
}

/// The identifier that the backend returned for a new delivery: the number
/// in the first column of the only row.
pub open spec fn returned_id(rows: Seq<Row>) -> Option<i64> {
    if rows.len() == 1 && rows[0]@.len() > 0 {
        match rows[0]@[0].1 {
            ValueView::Int(id) => Some(id),
            _ => None,
        }
    } else {
        None
    }
}

/// The identifier that a reply carries for a new delivery.
pub open spec fn reply_id(reply: Reply) -> Option<i64> {
    match reply {
        Reply::Rows(rows) => returned_id(rows@),
        _ => None,
    }
}

#[derive(Debug, PartialEq, Eq)]
enum WriteStage {
    Delivery,
    Payment,
    Header,
    Item(usize),
    Link(usize),
}

/// An order on its way into the backend: the order, and the statement that
/// is running for it.
#[derive(Debug, PartialEq, Eq)]
pub struct OrderWrite {
    order: Order,
    stage: WriteStage,
    delivery_id: i64,
}

/// How a write goes on after a reply.
pub enum WriteVerdict {
    /// It ends with this failure.
    Fail(StoreErrorView),
    /// It ends: every statement ran.
    Finish,
    /// The next statement is to be run, for a delivery with this identifier.
    Next(i64),
}

/// What to do next for an order that is being written.
#[derive(Debug, PartialEq, Eq)]
pub enum WriteStep {
    /// Run the statement, and hand its reply to [`OrderWrite::advance`].
    Run(OrderWrite, Statement),
    /// Every statement ran: the order is stored.
    Finished(Order),
    /// A statement failed. What ran before it stays in the backend.
    Failed(StoreError),
}

impl OrderWrite {
    /// The order that is being written.
    pub closed spec fn order(&self) -> OrderView {
        self.order@
    }

    /// The position of the running statement in the sequence.
    pub closed spec fn position(&self) -> int {
        match self.stage {
            WriteStage::Delivery => 0,
            WriteStage::Payment => 1,
            WriteStage::Header => 2,
            WriteStage::Item(j) => 3 + 2 * j,
            WriteStage::Link(j) => 4 + 2 * j,
        }
    }

    /// The identifier of the order's delivery, once the backend has given it.
    pub closed spec fn delivery_id(&self) -> i64 {
        self.delivery_id
    }

    /// The invariant of a write: the running statement is one of the
    /// order's sequence.
    #[verifier::type_invariant]
    pub open spec fn wf(&self) -> bool {
        0 <= self.position() < write_len(self.order())
    }

    fn run_item(self, j: usize) -> (step: WriteStep)
        requires
            j < self.order.items@.len(),
        ensures
            match step {
                WriteStep::Run(next, statement) => {
                    &&& next.wf()
                    &&& next.order() == self.order()
                    &&& next.delivery_id() == self.delivery_id()
                    &&& next.position() == 3 + 2 * j
                    &&& statement@ == write_statement(self.order(), self.delivery_id(), 3 + 2 * j)
                },
                _ => false,
            },
    {
        let statement = insert_item(&self.order.items[j]);
        WriteStep::Run(
            OrderWrite {
                order: self.order,
                stage: WriteStage::Item(j),
                delivery_id: self.delivery_id,
            },
            statement,
        )
    }

    /// How the write goes on after `reply` came to the running statement.
    ///
    /// A failure ends the write with that failure. The reply to the first
    /// statement must carry the delivery's identifier. Otherwise the next
    /// statement of the sequence is to be run, or the write is finished
    /// when there is none.
    pub open spec fn verdict(&self, reply: Reply) -> WriteVerdict {
        match reply {
            Reply::Failed(e) => WriteVerdict::Fail(e@),
            _ => if self.position() == 0 && reply_id(reply).is_none() {
                WriteVerdict::Fail(StoreErrorView::Integrity)
            } else if self.position() + 1 == write_len(self.order()) {
                WriteVerdict::Finish
            } else if self.position() == 0 {
                WriteVerdict::Next(reply_id(reply).unwrap())
            } else {
                WriteVerdict::Next(self.delivery_id())
            },
        }
    }

    /// Whether `next`, with `statement` running, is this write one statement
    /// later, for a delivery that the backend knows as `delivery_id`.
    pub open spec fn followed_by(
        &self,
        delivery_id: i64,
        next: OrderWrite,
        statement: Statement,
    ) -> bool {
        &&& next.wf()
        &&& next.order() == self.order()
        &&& next.position() == self.position() + 1
        &&& next.delivery_id() == delivery_id
        &&& statement@ == write_statement(self.order(), delivery_id, next.position())
    }

    /// Whether `step` is what `reply` to the running statement calls for.
    pub open spec fn leads_to(&self, reply: Reply, step: WriteStep) -> bool {
        match self.verdict(reply) {
            WriteVerdict::Fail(e) => step matches WriteStep::Failed(f) && f@ == e,
            WriteVerdict::Finish => step matches WriteStep::Finished(order) && order@
                == self.order(),
            WriteVerdict::Next(id) => step matches WriteStep::Run(next, statement)
                && self.followed_by(id, next, statement),
        }
    }

    /// Takes the reply to the running statement and says what comes next.
    pub fn advance(self, reply: Reply) -> (step: WriteStep)
        ensures
            self.leads_to(reply, step),
    {
        proof {
            use_type_invariant(&self);
        }
        match reply {
            Reply::Failed(e) => WriteStep::Failed(e),
            Reply::Executed => self.proceed(None),
            Reply::Rows(rows) => self.proceed(first_id(&rows)),
        }
    }

    fn proceed(self, id: Option<i64>) -> (step: WriteStep)
        requires
            self.wf(),
        ensures
            if self.position() == 0 && id.is_none() {
                step matches WriteStep::Failed(f) && f@ == StoreErrorView::Integrity
            } else if self.position() + 1 == write_len(self.order()) {
                step matches WriteStep::Finished(order) && order@ == self.order()
            } else if self.position() == 0 {
                step matches WriteStep::Run(next, statement) && self.followed_by(
                    id.unwrap(),
                    next,
                    statement,
                )
            } else {
                step matches WriteStep::Run(next, statement) && self.followed_by(
                    self.delivery_id(),
                    next,
                    statement,
                )
            },
    {
        match self.stage {
            WriteStage::Delivery => match id {
                Some(delivery_id) => {
                    let statement = insert_payment(&self.order.payment);
                    WriteStep::Run(
                        OrderWrite { order: self.order, stage: WriteStage::Payment, delivery_id },
                        statement,
                    )
                },
                None => WriteStep::Failed(StoreError::Integrity),
            },
            WriteStage::Payment => {
                let statement = insert_order(&self.order, self.delivery_id);
                WriteStep::Run(
                    OrderWrite {
                        order: self.order,
                        stage: WriteStage::Header,
                        delivery_id: self.delivery_id,
                    },
                    statement,
                )
            },
            WriteStage::Header => {
                if self.order.items.len() > 0 {
                    self.run_item(0)
                } else {
                    WriteStep::Finished(self.order)
                }
            },
            WriteStage::Item(j) => {
                let statement = insert_order_item(&self.order, &self.order.items[j]);
                WriteStep::Run(
                    OrderWrite {
                        order: self.order,
                        stage: WriteStage::Link(j),
                        delivery_id: self.delivery_id,
                    },
                    statement,
                )
            },
            WriteStage::Link(j) => {
                let count = self.order.items.len();
                if j + 1 < count {
                    self.run_item(j + 1)
                } else {
                    WriteStep::Finished(self.order)
                }
            },
        }
    }
}

/// Reads the identifier that the backend returned for a new delivery.
fn first_id(rows: &Vec<Row>) -> (id: Option<i64>)
    ensures
        id == returned_id(rows@),
{
    if rows.len() == 1 && rows[0].columns.len() > 0 {
        match rows[0].columns[0].value {
            Value::Int(id) => Some(id),
            Value::Text(_) => None,
        }
    } else {
        None
    }
}

/// In the sequence that writes an order, the delivery and the payment come
/// before the header that names them, and each item comes just before the
/// link that names it.
pub proof fn law_write_order(order: OrderView, delivery_id: i64, j: int)
    requires
        0 <= j < order.items.len(),
    ensures
        write_statement(order, delivery_id, 0) == delivery_statement(order.delivery),
        write_statement(order, delivery_id, 1) == payment_statement(order.payment),
        write_statement(order, delivery_id, 2) == order_statement(order, delivery_id),
        write_statement(order, delivery_id, 3 + 2 * j) == item_statement(order.items[j]),
        write_statement(order, delivery_id, 4 + 2 * j) == order_item_statement(
            order.order_uid,
            order.items[j].chrt_id,
        ),
        4 + 2 * j < write_len(order),
{
}

/// Whether `step` begins the write of `order`: its first statement is to be run.
pub open spec fn begins_write(order: OrderView, step: WriteStep) -> bool {
    step matches WriteStep::Run(write, statement) && {
        &&& write.wf()
        &&& write.order() == order
        &&& write.position() == 0
        &&& statement@ == write_statement(order, write.delivery_id(), 0)
    }
}

/// Begins to write `order`: the first statement, which adds its delivery,
/// is to be run.
pub fn add_order(order: Order) -> (step: WriteStep)
    ensures
        begins_write(order@, step),
{
    let statement = insert_delivery(&order.delivery);
    WriteStep::Run(OrderWrite { order, stage: WriteStage::Delivery, delivery_id: 0 }, statement)
}

/// An order on its way out of the backend: nothing yet while the order
/// query is running, then the order without its items while the item query
/// is running.
#[derive(Debug, PartialEq, Eq)]
pub struct OrderRead {
    header: Option<Order>,
}

/// How a read goes on after a reply.
pub enum ReadVerdict {
    /// It ends with this failure.
    Fail(StoreErrorView),
    /// The header was read: the item query is to be run.
    Next(OrderView),
    /// It ends with this order.
    Found(OrderView),
}

/// What to do next for an order that is being read.
#[derive(Debug, PartialEq, Eq)]
pub enum ReadStep {
    /// Run the statement, and hand its reply to [`OrderRead::advance`].
    Run(OrderRead, Statement),
    /// The order, with its items in the order the backend gave them.
    Found(Order),
    /// The order does not exist, or the backend failed.
    Failed(StoreError),
}

/// `order` with `items` in place of its own.
pub open spec fn with_items(order: OrderView, items: Seq<crate::model::ItemView>) -> OrderView {
    OrderView { items, ..order }
}

impl OrderRead {
    /// The order as far as it has been read.
    pub closed spec fn header(&self) -> Option<OrderView> {
        match self.header {
            Some(order) => Some(order@),
            None => None,
        }
    }

    /// How the read goes on after `reply` came to the running query.
    ///
    /// A failure ends the read with that failure. The order query must give
    /// one row that is an order: no row means that the order does not
    /// exist. The item query must give rows that are items.
    pub open spec fn verdict(&self, reply: Reply) -> ReadVerdict {
        match reply {
            Reply::Failed(e) => ReadVerdict::Fail(e@),
            Reply::Executed => ReadVerdict::Fail(StoreErrorView::Integrity),
            Reply::Rows(rows) => match self.header() {
                None => if rows@.len() == 0 {
                    ReadVerdict::Fail(StoreErrorView::NotFound)
                } else if rows@.len() == 1 && is_order_row(rows@[0]@) {
                    ReadVerdict::Next(order_of_row(rows@[0]@))
                } else {
                    ReadVerdict::Fail(StoreErrorView::Integrity)
                },
                Some(header) => if all_item_rows(rows@) {
                    ReadVerdict::Found(with_items(header, items_of_rows(rows@)))
                } else {
                    ReadVerdict::Fail(StoreErrorView::Integrity)
                },
            },
        }
    }

    /// Whether `step` is what `reply` to the running query calls for.
    pub open spec fn leads_to(&self, reply: Reply, step: ReadStep) -> bool {
        match self.verdict(reply) {
            ReadVerdict::Fail(e) => step matches ReadStep::Failed(f) && f@ == e,
            ReadVerdict::Next(header) => step matches ReadStep::Run(next, statement) && {
                &&& next.header() == Some(header)
                &&& statement@ == items_query(header.order_uid)
            },
            ReadVerdict::Found(found) => step matches ReadStep::Found(order) && order@ == found,
        }
    }

    /// Takes the reply to the running query and says what comes next.
    pub fn advance(self, reply: Reply) -> (step: ReadStep)
        ensures
            self.leads_to(reply, step),
    {
        match reply {
            Reply::Failed(e) => ReadStep::Failed(e),
            Reply::Executed => ReadStep::Failed(StoreError::Integrity),
            Reply::Rows(rows) => match self.header {
                None => {
                    if rows.len() == 0 {
                        ReadStep::Failed(StoreError::NotFound)
                    } else if rows.len() == 1 && order_row_ok(&rows[0]) {
                        let order = map_order_from_row(&rows[0]);
                        let statement = select_items(&order.order_uid);
                        ReadStep::Run(OrderRead { header: Some(order) }, statement)
                    } else {
                        ReadStep::Failed(StoreError::Integrity)
                    }
                },
                Some(header) => match get_items_for_order(&rows) {
                    Some(items) => {
                        let mut order = header;
                        order.items = items;
                        ReadStep::Found(order)
                    },
                    None => ReadStep::Failed(StoreError::Integrity),
                },
            },
        }
    }
}

/// Whether `step` begins the read of the order `order_uid`: the order query
/// is to be run.
pub open spec fn begins_read(order_uid: Seq<char>, step: ReadStep) -> bool {
    step matches ReadStep::Run(read, statement) && {
        &&& read.header().is_none()
        &&& statement@ == order_query(order_uid)
    }
}

/// Begins to read the order `order_uid`: the order query is to be run.
pub fn get_order_by_uid(order_uid: &String) -> (step: ReadStep)
    ensures
        begins_read(order_uid@, step),
{
    ReadStep::Run(OrderRead { header: None }, select_order(order_uid))
}

} // verus!
