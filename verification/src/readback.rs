use crate::assoc::lemma_index_at;
use crate::gateway::with_items;
use crate::model::{ItemView, OrderView};
use crate::row::{
    all_item_rows, is_item_row, is_order_row, item_of_row, items_of_rows, order_of_row, Row,
    RowView, ValueView,
};
use crate::statement::{
    delivery_statement, item_statement, order_statement, payment_statement,
};
use vstd::prelude::*;
use vstd::string::*;

verus! {

/// The row that holds each of `values` under the name at the same place.
pub open spec fn named_values(names: Seq<Seq<char>>, values: Seq<ValueView>) -> RowView {
    Seq::new(names.len(), |i: int| (names[i], values[i]))
}

/// The columns of the item table, in the order in which an item is written.
pub open spec fn item_columns() -> Seq<Seq<char>> {
    seq![
        "chrt_id"@, "track_number"@, "price"@, "rid"@, "name"@, "sale"@, "size"@,
        "total_price"@, "nm_id"@, "brand"@, "status"@,
    ]
}

/// An item that the backend hands back as it was written is read as the
/// item it was: the values that the insert statement carries, under the
/// names of their columns, are a row that reads as the same item.
pub proof fn law_item_read_back(item: ItemView)
    ensures
        is_item_row(named_values(item_columns(), item_statement(item).params)),
        item_of_row(named_values(item_columns(), item_statement(item).params)) == item,
{
    let row = named_values(item_columns(), item_statement(item).params);
    reveal_strlit("chrt_id");
    assert("chrt_id"@.len() == 7 && "chrt_id"@[2] == 'r');
    reveal_strlit("track_number");
    assert("track_number"@.len() == 12 && "track_number"@[2] == 'a');
    reveal_strlit("price");
    assert("price"@.len() == 5 && "price"@[2] == 'i');
    reveal_strlit("rid");
    assert("rid"@.len() == 3 && "rid"@[2] == 'd');
    reveal_strlit("name");
    assert("name"@.len() == 4 && "name"@[2] == 'm');
    reveal_strlit("sale");
    assert("sale"@.len() == 4 && "sale"@[2] == 'l');
    reveal_strlit("size");
    assert("size"@.len() == 4 && "size"@[2] == 'z');
    reveal_strlit("total_price");
    assert("total_price"@.len() == 11 && "total_price"@[2] == 't');
    reveal_strlit("nm_id");
    assert("nm_id"@.len() == 5 && "nm_id"@[2] == '_');
    reveal_strlit("brand");
    assert("brand"@.len() == 5 && "brand"@[2] == 'a');
    reveal_strlit("status");
    assert("status"@.len() == 6 && "status"@[2] == 'a');
    lemma_index_at(row, "chrt_id"@, 0);
    lemma_index_at(row, "track_number"@, 1);
    lemma_index_at(row, "price"@, 2);
    lemma_index_at(row, "rid"@, 3);
    lemma_index_at(row, "name"@, 4);
    lemma_index_at(row, "sale"@, 5);
    lemma_index_at(row, "size"@, 6);
    lemma_index_at(row, "total_price"@, 7);
    lemma_index_at(row, "nm_id"@, 8);
    lemma_index_at(row, "brand"@, 9);
    lemma_index_at(row, "status"@, 10);
}

/// The columns of the order table, in the order in which a header is written.
pub open spec fn header_columns() -> Seq<Seq<char>> {
    seq![
        "order_uid"@, "track_number"@, "entry"@, "delivery_id"@, "payment_transaction"@,
        "locale"@, "internal_signature"@, "customer_id"@, "delivery_service"@, "shardkey"@,
        "sm_id"@, "date_created"@, "oof_shard"@,
    ]
}

/// The columns of the delivery table, in the order in which a delivery is written.
pub open spec fn delivery_columns() -> Seq<Seq<char>> {
    seq![
        "name"@, "phone"@, "zip"@, "city"@, "address"@, "region"@, "email"@,
    ]
}

/// The columns of the payment table, in the order in which a payment is written.
pub open spec fn payment_columns() -> Seq<Seq<char>> {
    seq![
        "transaction"@, "request_id"@, "currency"@, "provider"@, "amount"@, "payment_dt"@,
        "bank"@, "delivery_cost"@, "goods_total"@, "custom_fee"@,
    ]
}

/// The row that joins what was written for `order`: its header, its
/// delivery and its payment, each value under the name of its column.
pub open spec fn order_row_of(order: OrderView, delivery_id: i64) -> RowView {
    named_values(header_columns(), order_statement(order, delivery_id).params) + named_values(
        delivery_columns(),
        delivery_statement(order.delivery).params,
    ) + named_values(payment_columns(), payment_statement(order.payment).params)
}

/// An order that the backend hands back as it was written is read as the
/// order it was, but for its items, which come from rows of their own.
pub proof fn law_order_read_back(order: OrderView, delivery_id: i64)
    ensures
        is_order_row(order_row_of(order, delivery_id)),
        order_of_row(order_row_of(order, delivery_id)) == with_items(order, Seq::empty()),
{
    let row = order_row_of(order, delivery_id);
    reveal_strlit("order_uid");
    assert("order_uid"@.len() == 9 && "order_uid"@[2] == 'd');
    reveal_strlit("track_number");
    assert("track_number"@.len() == 12 && "track_number"@[2] == 'a');
    reveal_strlit("entry");
    assert("entry"@.len() == 5 && "entry"@[2] == 't');
    reveal_strlit("delivery_id");
    assert("delivery_id"@.len() == 11 && "delivery_id"@[2] == 'l');
    reveal_strlit("payment_transaction");
    assert("payment_transaction"@.len() == 19 && "payment_transaction"@[2] == 'y');
    reveal_strlit("locale");
    assert("locale"@.len() == 6 && "locale"@[2] == 'c');
    reveal_strlit("internal_signature");
    assert("internal_signature"@.len() == 18 && "internal_signature"@[2] == 't');
    reveal_strlit("customer_id");
    assert("customer_id"@.len() == 11 && "customer_id"@[2] == 's');
    reveal_strlit("delivery_service");
    assert("delivery_service"@.len() == 16 && "delivery_service"@[2] == 'l');
    reveal_strlit("shardkey");
    assert("shardkey"@.len() == 8 && "shardkey"@[2] == 'a');
    reveal_strlit("sm_id");
    assert("sm_id"@.len() == 5 && "sm_id"@[2] == '_');
    reveal_strlit("date_created");
    assert("date_created"@.len() == 12 && "date_created"@[2] == 't');
    reveal_strlit("oof_shard");
    assert("oof_shard"@.len() == 9 && "oof_shard"@[2] == 'f');
    reveal_strlit("name");
    assert("name"@.len() == 4 && "name"@[2] == 'm');
    reveal_strlit("phone");
    assert("phone"@.len() == 5 && "phone"@[2] == 'o');
    reveal_strlit("zip");
    assert("zip"@.len() == 3 && "zip"@[2] == 'p');
    reveal_strlit("city");
    assert("city"@.len() == 4 && "city"@[2] == 't');
    reveal_strlit("address");
    assert("address"@.len() == 7 && "address"@[2] == 'd');
    reveal_strlit("region");
    assert("region"@.len() == 6 && "region"@[2] == 'g');
    reveal_strlit("email");
    assert("email"@.len() == 5 && "email"@[2] == 'a');
    reveal_strlit("transaction");
    assert("transaction"@.len() == 11 && "transaction"@[2] == 'a');
    reveal_strlit("request_id");
    assert("request_id"@.len() == 10 && "request_id"@[2] == 'q');
    reveal_strlit("currency");
    assert("currency"@.len() == 8 && "currency"@[2] == 'r');
    reveal_strlit("provider");
    assert("provider"@.len() == 8 && "provider"@[2] == 'o');
    reveal_strlit("amount");
    assert("amount"@.len() == 6 && "amount"@[2] == 'o');
    reveal_strlit("payment_dt");
    assert("payment_dt"@.len() == 10 && "payment_dt"@[2] == 'y');
    reveal_strlit("bank");
    assert("bank"@.len() == 4 && "bank"@[2] == 'n');
    reveal_strlit("delivery_cost");
    assert("delivery_cost"@.len() == 13 && "delivery_cost"@[2] == 'l');
    reveal_strlit("goods_total");
    assert("goods_total"@.len() == 11 && "goods_total"@[2] == 'o');
    reveal_strlit("custom_fee");
    assert("custom_fee"@.len() == 10 && "custom_fee"@[2] == 's');
    lemma_index_at(row, "order_uid"@, 0);
    lemma_index_at(row, "track_number"@, 1);
    lemma_index_at(row, "entry"@, 2);
    lemma_index_at(row, "locale"@, 5);
    lemma_index_at(row, "internal_signature"@, 6);
    lemma_index_at(row, "customer_id"@, 7);
    lemma_index_at(row, "delivery_service"@, 8);
    lemma_index_at(row, "shardkey"@, 9);
    lemma_index_at(row, "sm_id"@, 10);
    lemma_index_at(row, "date_created"@, 11);
    lemma_index_at(row, "oof_shard"@, 12);
    lemma_index_at(row, "name"@, 13);
    lemma_index_at(row, "phone"@, 14);
    lemma_index_at(row, "zip"@, 15);
    lemma_index_at(row, "city"@, 16);
    lemma_index_at(row, "address"@, 17);
    lemma_index_at(row, "region"@, 18);
    lemma_index_at(row, "email"@, 19);
    lemma_index_at(row, "transaction"@, 20);
    lemma_index_at(row, "request_id"@, 21);
    lemma_index_at(row, "currency"@, 22);
    lemma_index_at(row, "provider"@, 23);
    lemma_index_at(row, "amount"@, 24);
    lemma_index_at(row, "payment_dt"@, 25);
    lemma_index_at(row, "bank"@, 26);
    lemma_index_at(row, "delivery_cost"@, 27);
    lemma_index_at(row, "goods_total"@, 28);
    lemma_index_at(row, "custom_fee"@, 29);
}

/// An order that the backend hands back as it was written, its items in
/// the order in which they were written, is read as the order it was.
pub proof fn law_read_back(order: OrderView, delivery_id: i64, rows: Seq<Row>)
    requires
        rows.len() == order.items.len(),
        forall|j: int|
            0 <= j < rows.len() ==> #[trigger] rows[j]@ == named_values(
                item_columns(),
                item_statement(order.items[j]).params,
            ),
    ensures
        is_order_row(order_row_of(order, delivery_id)),
        all_item_rows(rows),
        with_items(order_of_row(order_row_of(order, delivery_id)), items_of_rows(rows)) == order,
{
    law_order_read_back(order, delivery_id);
    assert forall|j: int| 0 <= j < rows.len() implies is_item_row(#[trigger] rows[j]@)
        && item_of_row(rows[j]@) == order.items[j] by {
        law_item_read_back(order.items[j]);
    }
    assert(items_of_rows(rows) =~= order.items);
}

} // verus!
