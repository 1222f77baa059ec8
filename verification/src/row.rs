use crate::assoc::{index_of, lemma_index_of};
use crate::model::{
    items_view, Delivery, DeliveryView, Item, ItemView, Order, OrderView, Payment, PaymentView,
};
use vstd::pervasive::unreached;
use vstd::prelude::*;
use vstd::string::*;

verus! {

/// A value the backend stores in a column or takes as a parameter.
#[derive(Debug, PartialEq, Eq)]
pub enum Value {
    Text(String),
    Int(i64),
}

/// The mathematical value of a [`Value`].
pub enum ValueView {
    Text(Seq<char>),
    Int(i64),
}

impl View for Value {
    type V = ValueView;

    open spec fn view(&self) -> ValueView {
        match self {
            Value::Text(s) => ValueView::Text(s@),
            Value::Int(n) => ValueView::Int(*n),
        }
    }
}

/// The values of a list, in the same order.
pub open spec fn values_view(values: Seq<Value>) -> Seq<ValueView> {
    Seq::new(values.len(), |i: int| values[i]@)
}

/// One named column of a row.
#[derive(Debug, PartialEq, Eq)]
pub struct Column {
    pub name: String,
    pub value: Value,
}

/// One row of a query's result: its columns in the order the backend gave them.
#[derive(Debug, PartialEq, Eq)]
pub struct Row {
    pub columns: Vec<Column>,
}

/// The mathematical value of a [`Row`]: names and values, in order.
pub type RowView = Seq<(Seq<char>, ValueView)>;

impl View for Row {
    type V = RowView;

    open spec fn view(&self) -> RowView {
        Seq::new(self.columns@.len(), |i: int| (self.columns@[i].name@, self.columns@[i].value@))
    }
}

/// The value of the first column called `name`.
pub open spec fn value_of(row: RowView, name: Seq<char>) -> Option<ValueView> {
    if index_of(row, name) >= 0 {
        Some(row[index_of(row, name)].1)
    } else {
        None
    }
}

/// The text in the first column called `name`, where that column holds text.
pub open spec fn text_of(row: RowView, name: Seq<char>) -> Option<Seq<char>> {
    match value_of(row, name) {
        Some(ValueView::Text(s)) => Some(s),
        _ => None,
    }
}

/// The number in the first column called `name`, where that column holds a number.
pub open spec fn int_of(row: RowView, name: Seq<char>) -> Option<i64> {
    match value_of(row, name) {
        Some(ValueView::Int(n)) => Some(n),
        _ => None,
    }
}

impl Row {
    /// The position of the first column called `name`.
    pub fn find(&self, name: &str) -> (r: Option<usize>)
        ensures
            match r {
                Some(i) => i < self.columns@.len() && index_of(self@, name@) == i,
                None => index_of(self@, name@) == -1,
            },
    {
        let wanted = String::from_str(name);
        let mut i: usize = 0;
        while i < self.columns.len()
            invariant
                i <= self.columns@.len(),
                wanted@ == name@,
                forall|j: int| 0 <= j < i ==> self@[j].0 != name@,
            decreases self.columns.len() - i,
        {
            assert(self@[i as int].0 == self.columns@[i as int].name@);
            if self.columns[i].name == wanted {
                proof {
                    assert(self@[i as int].0 == name@);
                    lemma_index_of(self@, name@);
                }
                return Some(i);
            }
            i += 1;
        }
        proof {
            lemma_index_of(self@, name@);
        }
        None
    }

    /// Whether the first column called `name` holds text.
    pub fn has_text(&self, name: &str) -> (r: bool)
        ensures
            r == text_of(self@, name@).is_some(),
    {
        match self.find(name) {
            Some(i) => match &self.columns[i].value {
                Value::Text(_) => true,
                Value::Int(_) => false,
            },
            None => false,
        }
    }

    /// Whether the first column called `name` holds a number.
    pub fn has_int(&self, name: &str) -> (r: bool)
        ensures
            r == int_of(self@, name@).is_some(),
    {
        match self.find(name) {
            Some(i) => match &self.columns[i].value {
                Value::Text(_) => false,
                Value::Int(_) => true,
            },
            None => false,
        }
    }

    /// The text in the column called `name`.
    pub fn get_text(&self, name: &str) -> (r: String)
        requires
            text_of(self@, name@).is_some(),
        ensures
            r@ == text_of(self@, name@).unwrap(),
    {
        match self.find(name) {
            Some(i) => match &self.columns[i].value {
                Value::Text(s) => s.clone(),
                Value::Int(_) => unreached(),
            },
            None => unreached(),
        }
    }

    /// The number in the column called `name`.
    pub fn get_int(&self, name: &str) -> (r: i64)
        requires
            int_of(self@, name@).is_some(),
        ensures
            r == int_of(self@, name@).unwrap(),
    {
        match self.find(name) {
            Some(i) => match &self.columns[i].value {
                Value::Text(_) => unreached(),
                Value::Int(n) => *n,
            },
            None => unreached(),
        }
    }
}

/// Whether `row` has every column of an item, each of the right kind.
pub open spec fn is_item_row(row: RowView) -> bool {
    &&& int_of(row, "chrt_id"@).is_some()
    &&& text_of(row, "track_number"@).is_some()
    &&& int_of(row, "price"@).is_some()
    &&& text_of(row, "rid"@).is_some()
    &&& text_of(row, "name"@).is_some()
    &&& int_of(row, "sale"@).is_some()
    &&& text_of(row, "size"@).is_some()
    &&& int_of(row, "total_price"@).is_some()
    &&& int_of(row, "nm_id"@).is_some()
    &&& text_of(row, "brand"@).is_some()
    &&& int_of(row, "status"@).is_some()
}

/// The item that an item row describes.
pub open spec fn item_of_row(row: RowView) -> ItemView {
    ItemView {
        chrt_id: int_of(row, "chrt_id"@).unwrap(),
        track_number: text_of(row, "track_number"@).unwrap(),
        price: int_of(row, "price"@).unwrap(),
        rid: text_of(row, "rid"@).unwrap(),
        name: text_of(row, "name"@).unwrap(),
        sale: int_of(row, "sale"@).unwrap(),
        size: text_of(row, "size"@).unwrap(),
        total_price: int_of(row, "total_price"@).unwrap(),
        nm_id: int_of(row, "nm_id"@).unwrap(),
        brand: text_of(row, "brand"@).unwrap(),
        status: int_of(row, "status"@).unwrap(),
    }
}

/// Whether `row` has every column of an order's header, its delivery and
/// its payment, each of the right kind.
pub open spec fn is_order_row(row: RowView) -> bool {
    &&& text_of(row, "order_uid"@).is_some()
    &&& text_of(row, "track_number"@).is_some()
    &&& text_of(row, "entry"@).is_some()
    &&& text_of(row, "locale"@).is_some()
    &&& text_of(row, "internal_signature"@).is_some()
    &&& text_of(row, "customer_id"@).is_some()
    &&& text_of(row, "delivery_service"@).is_some()
    &&& text_of(row, "shardkey"@).is_some()
    &&& int_of(row, "sm_id"@).is_some()
    &&& text_of(row, "date_created"@).is_some()
    &&& text_of(row, "oof_shard"@).is_some()
    &&& text_of(row, "name"@).is_some()
    &&& text_of(row, "phone"@).is_some()
    &&& text_of(row, "zip"@).is_some()
    &&& text_of(row, "city"@).is_some()
    &&& text_of(row, "address"@).is_some()
    &&& text_of(row, "region"@).is_some()
    &&& text_of(row, "email"@).is_some()
    &&& text_of(row, "transaction"@).is_some()
    &&& text_of(row, "request_id"@).is_some()
    &&& text_of(row, "currency"@).is_some()
    &&& text_of(row, "provider"@).is_some()
    &&& int_of(row, "amount"@).is_some()
    &&& int_of(row, "payment_dt"@).is_some()
    &&& text_of(row, "bank"@).is_some()
    &&& int_of(row, "delivery_cost"@).is_some()
    &&& int_of(row, "goods_total"@).is_some()
    &&& int_of(row, "custom_fee"@).is_some()
}

/// The order that an order row describes, still without its items.
pub open spec fn order_of_row(row: RowView) -> OrderView {
    OrderView {
        order_uid: text_of(row, "order_uid"@).unwrap(),
        track_number: text_of(row, "track_number"@).unwrap(),
        entry: text_of(row, "entry"@).unwrap(),
        locale: text_of(row, "locale"@).unwrap(),
        internal_signature: text_of(row, "internal_signature"@).unwrap(),
        customer_id: text_of(row, "customer_id"@).unwrap(),
        delivery_service: text_of(row, "delivery_service"@).unwrap(),
        shardkey: text_of(row, "shardkey"@).unwrap(),
        sm_id: int_of(row, "sm_id"@).unwrap(),
        date_created: text_of(row, "date_created"@).unwrap(),
        oof_shard: text_of(row, "oof_shard"@).unwrap(),
        delivery: DeliveryView {
            name: text_of(row, "name"@).unwrap(),
            phone: text_of(row, "phone"@).unwrap(),
            zip: text_of(row, "zip"@).unwrap(),
            city: text_of(row, "city"@).unwrap(),
            address: text_of(row, "address"@).unwrap(),
            region: text_of(row, "region"@).unwrap(),
            email: text_of(row, "email"@).unwrap(),
        },
        payment: PaymentView {
            transaction: text_of(row, "transaction"@).unwrap(),
            request_id: text_of(row, "request_id"@).unwrap(),
            currency: text_of(row, "currency"@).unwrap(),
            provider: text_of(row, "provider"@).unwrap(),
            amount: int_of(row, "amount"@).unwrap(),
            payment_dt: int_of(row, "payment_dt"@).unwrap(),
            bank: text_of(row, "bank"@).unwrap(),
            delivery_cost: int_of(row, "delivery_cost"@).unwrap(),
            goods_total: int_of(row, "goods_total"@).unwrap(),
            custom_fee: int_of(row, "custom_fee"@).unwrap(),
        },
        items: Seq::empty(),
    }
}

/// Decides whether a row can be read as an item.
pub fn item_row_ok(row: &Row) -> (r: bool)
    ensures
        r == is_item_row(row@),
{
    row.has_int("chrt_id")
        && row.has_text("track_number")
        && row.has_int("price")
        && row.has_text("rid")
        && row.has_text("name")
        && row.has_int("sale")
        && row.has_text("size")
        && row.has_int("total_price")
        && row.has_int("nm_id")
        && row.has_text("brand")
        && row.has_int("status")
}

/// Decides whether a row can be read as an order.
pub fn order_row_ok(row: &Row) -> (r: bool)
    ensures
        r == is_order_row(row@),
{
    row.has_text("order_uid")
        && row.has_text("track_number")
        && row.has_text("entry")
        && row.has_text("locale")
        && row.has_text("internal_signature")
        && row.has_text("customer_id")
        && row.has_text("delivery_service")
        && row.has_text("shardkey")
        && row.has_int("sm_id")
        && row.has_text("date_created")
        && row.has_text("oof_shard")
        && row.has_text("name")
        && row.has_text("phone")
        && row.has_text("zip")
        && row.has_text("city")
        && row.has_text("address")
        && row.has_text("region")
        && row.has_text("email")
        && row.has_text("transaction")
        && row.has_text("request_id")
        && row.has_text("currency")
        && row.has_text("provider")
        && row.has_int("amount")
        && row.has_int("payment_dt")
        && row.has_text("bank")
        && row.has_int("delivery_cost")
        && row.has_int("goods_total")
        && row.has_int("custom_fee")
}

/// Reads an item from a row of the item query.
pub fn map_item_from_row(row: &Row) -> (item: Item)
    requires
        is_item_row(row@),
    ensures
        item@ == item_of_row(row@),
{
    Item {
        chrt_id: row.get_int("chrt_id"),
        track_number: row.get_text("track_number"),
        price: row.get_int("price"),
        rid: row.get_text("rid"),
        name: row.get_text("name"),
        sale: row.get_int("sale"),
        size: row.get_text("size"),
        total_price: row.get_int("total_price"),
        nm_id: row.get_int("nm_id"),
        brand: row.get_text("brand"),
        status: row.get_int("status"),
    }
}

/// Reads an order, its delivery and its payment from the row of the order
/// query. The order has no items yet.
pub fn map_order_from_row(row: &Row) -> (order: Order)
    requires
        is_order_row(row@),
    ensures
        order@ == order_of_row(row@),
{
    let delivery = Delivery {
        name: row.get_text("name"),
        phone: row.get_text("phone"),
        zip: row.get_text("zip"),
        city: row.get_text("city"),
        address: row.get_text("address"),
        region: row.get_text("region"),
        email: row.get_text("email"),
    };
    let payment = Payment {
        transaction: row.get_text("transaction"),
        request_id: row.get_text("request_id"),
        currency: row.get_text("currency"),
        provider: row.get_text("provider"),
        amount: row.get_int("amount"),
        payment_dt: row.get_int("payment_dt"),
        bank: row.get_text("bank"),
        delivery_cost: row.get_int("delivery_cost"),
        goods_total: row.get_int("goods_total"),
        custom_fee: row.get_int("custom_fee"),
    };
    let order = Order {
        order_uid: row.get_text("order_uid"),
        track_number: row.get_text("track_number"),
        entry: row.get_text("entry"),
        locale: row.get_text("locale"),
        internal_signature: row.get_text("internal_signature"),
        customer_id: row.get_text("customer_id"),
        delivery_service: row.get_text("delivery_service"),
        shardkey: row.get_text("shardkey"),
        sm_id: row.get_int("sm_id"),
        date_created: row.get_text("date_created"),
        oof_shard: row.get_text("oof_shard"),
        delivery,
        payment,
        items: Vec::new(),
    };
    assert(order@.items =~= Seq::empty());
    order
}

/// The items that a list of item rows describes, in the same order.
pub open spec fn items_of_rows(rows: Seq<Row>) -> Seq<ItemView> {
    Seq::new(rows.len(), |i: int| item_of_row(rows[i]@))
}

/// Whether every row of the list can be read as an item.
pub open spec fn all_item_rows(rows: Seq<Row>) -> bool {
    forall|i: int| 0 <= i < rows.len() ==> is_item_row(#[trigger] rows[i]@)
}

/// Reads the items of an order from the rows of the item query, in the
/// order of the rows. `None` where some row cannot be read as an item.
pub fn get_items_for_order(rows: &Vec<Row>) -> (r: Option<Vec<Item>>)
    ensures
        match r {
            Some(items) => all_item_rows(rows@) && items_view(items@) == items_of_rows(rows@),
            None => !all_item_rows(rows@),
        },
{
    let mut items: Vec<Item> = Vec::new();
    let mut i: usize = 0;
    while i < rows.len()
        invariant
            i <= rows.len(),
            items@.len() == i,
            forall|j: int| 0 <= j < i ==> is_item_row(#[trigger] rows@[j]@),
            forall|j: int| 0 <= j < i ==> items@[j]@ == item_of_row(rows@[j]@),
        decreases rows.len() - i,
    {
        if !item_row_ok(&rows[i]) {
            return None;
        }
        items.push(map_item_from_row(&rows[i]));
        i += 1;
    }
    assert(items_view(items@) =~= items_of_rows(rows@));
    Some(items)
}

} // verus!
