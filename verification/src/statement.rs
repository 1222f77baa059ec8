use crate::model::{DeliveryView, ItemView, OrderView, PaymentView};
use crate::model::{Delivery, Item, Order, Payment};
use crate::row::{values_view, Value, ValueView};
use vstd::prelude::*;

verus! {

/// The statements the store sends to the backend.
#[derive(Debug, Clone, Copy, PartialEq, Eq, Structural)]
pub enum StatementKind {
    /// Adds a delivery and returns the identifier the backend gave it.
    InsertDelivery,
    /// Adds a payment under its transaction identifier.
    InsertPayment,
    /// Adds the header of an order, which names its delivery and its payment.
    InsertOrder,
    /// Adds an item.
    InsertItem,
    /// Links an item to an order.
    InsertOrderItem,
    /// Reads the header of an order with its delivery and its payment.
    SelectOrder,
    /// Reads the items linked to an order.
    SelectItems,
}

/// A statement with the values of its parameters, in the order of the
/// placeholders `$1`, `$2`, ...
#[derive(Debug, PartialEq, Eq)]
pub struct Statement {
    pub kind: StatementKind,
    pub params: Vec<Value>,
}

/// The mathematical value of a [`Statement`].
pub struct StatementView {
    pub kind: StatementKind,
    pub params: Seq<ValueView>,
}

impl View for Statement {
    type V = StatementView;

    open spec fn view(&self) -> StatementView {
        StatementView { kind: self.kind, params: values_view(self.params@) }
    }
}

pub const INSERT_DELIVERY_SQL: &'static str =
    "INSERT INTO delivery (name, phone, zip, city, address, region, email) \
     VALUES ($1, $2, $3, $4, $5, $6, $7) RETURNING delivery_id";

pub const INSERT_PAYMENT_SQL: &'static str =
    "INSERT INTO payment (transaction, request_id, currency, provider, amount, payment_dt, \
     bank, delivery_cost, goods_total, custom_fee) \
     VALUES ($1, $2, $3, $4, $5, $6, $7, $8, $9, $10)";

pub const INSERT_ORDER_SQL: &'static str =
    "INSERT INTO order_info (order_uid, track_number, entry, delivery_id, \
     payment_transaction, locale, internal_signature, customer_id, delivery_service, \
     shardkey, sm_id, date_created, oof_shard) \
     VALUES ($1, $2, $3, $4, $5, $6, $7, $8, $9, $10, $11, $12, $13)";

pub const INSERT_ITEM_SQL: &'static str =
    "INSERT INTO item (chrt_id, track_number, price, rid, name, sale, size, total_price, \
     nm_id, brand, status) VALUES ($1, $2, $3, $4, $5, $6, $7, $8, $9, $10, $11)";

pub const INSERT_ORDER_ITEM_SQL: &'static str =
    "INSERT INTO order_item (order_uid, item_chrt_id) VALUES ($1, $2)";

pub const SELECT_ORDER_SQL: &'static str =
    "SELECT oi.order_uid, oi.track_number, oi.entry, oi.locale, oi.internal_signature, \
     oi.customer_id, oi.delivery_service, oi.shardkey, oi.sm_id, oi.date_created, \
     oi.oof_shard, d.delivery_id, d.name, d.phone, d.zip, d.city, d.address, d.region, \
     d.email, p.transaction, p.request_id, p.currency, p.provider, p.amount, p.payment_dt, \
     p.bank, p.delivery_cost, p.goods_total, p.custom_fee \
     FROM order_info oi \
     JOIN delivery d ON oi.delivery_id = d.delivery_id \
     JOIN payment p ON oi.payment_transaction = p.transaction \
     WHERE oi.order_uid = $1";

pub const SELECT_ITEMS_SQL: &'static str =
    "SELECT i.chrt_id, i.track_number, i.price, i.rid, i.name, i.sale, i.size, \
     i.total_price, i.nm_id, i.brand, i.status \
     FROM item i JOIN order_item oi ON i.chrt_id = oi.item_chrt_id \
     WHERE oi.order_uid = $1";

/// The text of each statement.
pub open spec fn sql_of(kind: StatementKind) -> Seq<char> {
    match kind {
        StatementKind::InsertDelivery => INSERT_DELIVERY_SQL@,
        StatementKind::InsertPayment => INSERT_PAYMENT_SQL@,
        StatementKind::InsertOrder => INSERT_ORDER_SQL@,
        StatementKind::InsertItem => INSERT_ITEM_SQL@,
        StatementKind::InsertOrderItem => INSERT_ORDER_ITEM_SQL@,
        StatementKind::SelectOrder => SELECT_ORDER_SQL@,
        StatementKind::SelectItems => SELECT_ITEMS_SQL@,
    }
}

/// Whether the backend answers a statement with rows.
pub open spec fn returns_rows(kind: StatementKind) -> bool {
    kind == StatementKind::InsertDelivery || kind == StatementKind::SelectOrder || kind
        == StatementKind::SelectItems
}

impl Statement {
    /// The text to send to the backend.
    pub fn sql(&self) -> (r: &'static str)
        ensures
            r@ == sql_of(self.kind),
    {
        match self.kind {
            StatementKind::InsertDelivery => INSERT_DELIVERY_SQL,
            StatementKind::InsertPayment => INSERT_PAYMENT_SQL,
            StatementKind::InsertOrder => INSERT_ORDER_SQL,
            StatementKind::InsertItem => INSERT_ITEM_SQL,
            StatementKind::InsertOrderItem => INSERT_ORDER_ITEM_SQL,
            StatementKind::SelectOrder => SELECT_ORDER_SQL,
            StatementKind::SelectItems => SELECT_ITEMS_SQL,
        }
    }

    /// Whether the statement is to be run as a query, whose rows are wanted.
    pub fn is_query(&self) -> (r: bool)
        ensures
            r == returns_rows(self.kind),
    {
        match self.kind {
            StatementKind::InsertDelivery => true,
            StatementKind::SelectOrder => true,
            StatementKind::SelectItems => true,
            _ => false,
        }
    }
}

/// The statement that adds a delivery.
pub open spec fn delivery_statement(d: DeliveryView) -> StatementView {
    StatementView {
        kind: StatementKind::InsertDelivery,
        params: seq![
            ValueView::Text(d.name),
            ValueView::Text(d.phone),
            ValueView::Text(d.zip),
            ValueView::Text(d.city),
            ValueView::Text(d.address),
            ValueView::Text(d.region),
            ValueView::Text(d.email),
        ],
    }
}

/// The statement that adds a payment.
pub open spec fn payment_statement(p: PaymentView) -> StatementView {
    StatementView {
        kind: StatementKind::InsertPayment,
        params: seq![
            ValueView::Text(p.transaction),
            ValueView::Text(p.request_id),
            ValueView::Text(p.currency),
            ValueView::Text(p.provider),
            ValueView::Int(p.amount),
            ValueView::Int(p.payment_dt),
            ValueView::Text(p.bank),
            ValueView::Int(p.delivery_cost),
            ValueView::Int(p.goods_total),
            ValueView::Int(p.custom_fee),
        ],
    }
}

/// The statement that adds the header of an order whose delivery the
/// backend knows as `delivery_id`.
pub open spec fn order_statement(o: OrderView, delivery_id: i64) -> StatementView {
    StatementView {
        kind: StatementKind::InsertOrder,
        params: seq![
            ValueView::Text(o.order_uid),
            ValueView::Text(o.track_number),
            ValueView::Text(o.entry),
            ValueView::Int(delivery_id),
            ValueView::Text(o.payment.transaction),
            ValueView::Text(o.locale),
            ValueView::Text(o.internal_signature),
            ValueView::Text(o.customer_id),
            ValueView::Text(o.delivery_service),
            ValueView::Text(o.shardkey),
            ValueView::Int(o.sm_id),
            ValueView::Text(o.date_created),
            ValueView::Text(o.oof_shard),
        ],
    }
}

/// The statement that adds an item.
pub open spec fn item_statement(i: ItemView) -> StatementView {
    StatementView {
        kind: StatementKind::InsertItem,
        params: seq![
            ValueView::Int(i.chrt_id),
            ValueView::Text(i.track_number),
            ValueView::Int(i.price),
            ValueView::Text(i.rid),
            ValueView::Text(i.name),
            ValueView::Int(i.sale),
            ValueView::Text(i.size),
            ValueView::Int(i.total_price),
            ValueView::Int(i.nm_id),
            ValueView::Text(i.brand),
            ValueView::Int(i.status),
        ],
    }
}

/// The statement that links the item `chrt_id` to the order `order_uid`.
pub open spec fn order_item_statement(order_uid: Seq<char>, chrt_id: i64) -> StatementView {
    StatementView {
        kind: StatementKind::InsertOrderItem,
        params: seq![ValueView::Text(order_uid), ValueView::Int(chrt_id)],
    }
}

/// The query for the header, the delivery and the payment of an order.
pub open spec fn order_query(order_uid: Seq<char>) -> StatementView {
    StatementView { kind: StatementKind::SelectOrder, params: seq![ValueView::Text(order_uid)] }
}

/// The query for the items of an order.
pub open spec fn items_query(order_uid: Seq<char>) -> StatementView {
    StatementView { kind: StatementKind::SelectItems, params: seq![ValueView::Text(order_uid)] }
}

/// Builds the statement that adds a delivery.
pub fn insert_delivery(delivery: &Delivery) -> (s: Statement)
    ensures
        s@ == delivery_statement(delivery@),
{
    let params = vec![
        Value::Text(delivery.name.clone()),
        Value::Text(delivery.phone.clone()),
        Value::Text(delivery.zip.clone()),
        Value::Text(delivery.city.clone()),
        Value::Text(delivery.address.clone()),
        Value::Text(delivery.region.clone()),
        Value::Text(delivery.email.clone()),
    ];
    let s = Statement { kind: StatementKind::InsertDelivery, params };
    assert(s@.params =~= delivery_statement(delivery@).params);
    s
}

/// Builds the statement that adds a payment.
pub fn insert_payment(payment: &Payment) -> (s: Statement)
    ensures
        s@ == payment_statement(payment@),
{
    let params = vec![
        Value::Text(payment.transaction.clone()),
        Value::Text(payment.request_id.clone()),
        Value::Text(payment.currency.clone()),
        Value::Text(payment.provider.clone()),
        Value::Int(payment.amount),
        Value::Int(payment.payment_dt),
        Value::Text(payment.bank.clone()),
        Value::Int(payment.delivery_cost),
        Value::Int(payment.goods_total),
        Value::Int(payment.custom_fee),
    ];
    let s = Statement { kind: StatementKind::InsertPayment, params };
    assert(s@.params =~= payment_statement(payment@).params);
    s
}

/// Builds the statement that adds the header of an order.
pub fn insert_order(order: &Order, delivery_id: i64) -> (s: Statement)
    ensures
        s@ == order_statement(order@, delivery_id),
{
    let params = vec![
        Value::Text(order.order_uid.clone()),
        Value::Text(order.track_number.clone()),
        Value::Text(order.entry.clone()),
        Value::Int(delivery_id),
        Value::Text(order.payment.transaction.clone()),
        Value::Text(order.locale.clone()),
        Value::Text(order.internal_signature.clone()),
        Value::Text(order.customer_id.clone()),
        Value::Text(order.delivery_service.clone()),
        Value::Text(order.shardkey.clone()),
        Value::Int(order.sm_id),
        Value::Text(order.date_created.clone()),
        Value::Text(order.oof_shard.clone()),
    ];
    let s = Statement { kind: StatementKind::InsertOrder, params };
    assert(s@.params =~= order_statement(order@, delivery_id).params);
    s
}

/// Builds the statement that adds an item.
pub fn insert_item(item: &Item) -> (s: Statement)
    ensures
        s@ == item_statement(item@),
{
    let params = vec![
        Value::Int(item.chrt_id),
        Value::Text(item.track_number.clone()),
        Value::Int(item.price),
        Value::Text(item.rid.clone()),
        Value::Text(item.name.clone()),
        Value::Int(item.sale),
        Value::Text(item.size.clone()),
        Value::Int(item.total_price),
        Value::Int(item.nm_id),
        Value::Text(item.brand.clone()),
        Value::Int(item.status),
    ];
    let s = Statement { kind: StatementKind::InsertItem, params };
    assert(s@.params =~= item_statement(item@).params);
    s
}

/// Builds the statement that links an item to an order.
pub fn insert_order_item(order: &Order, item: &Item) -> (s: Statement)
    ensures
        s@ == order_item_statement(order@.order_uid, item@.chrt_id),
{
    let params = vec![Value::Text(order.order_uid.clone()), Value::Int(item.chrt_id)];
    let s = Statement { kind: StatementKind::InsertOrderItem, params };
    assert(s@.params =~= order_item_statement(order@.order_uid, item@.chrt_id).params);
    s
}

/// Builds the query for the header of an order.
pub fn select_order(order_uid: &String) -> (s: Statement)
    ensures
        s@ == order_query(order_uid@),
{
    let params = vec![Value::Text(order_uid.clone())];
    let s = Statement { kind: StatementKind::SelectOrder, params };
    assert(s@.params =~= order_query(order_uid@).params);
    s
}

/// Builds the query for the items of an order.
pub fn select_items(order_uid: &String) -> (s: Statement)
    ensures
        s@ == items_query(order_uid@),
{
    let params = vec![Value::Text(order_uid.clone())];
    let s = Statement { kind: StatementKind::SelectItems, params };
    assert(s@.params =~= items_query(order_uid@).params);
    s
}

} // verus!
