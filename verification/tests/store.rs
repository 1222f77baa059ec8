use order_store::cache::OrderCache;
use order_store::error::{backend_failure, StoreError};
use order_store::gateway::{add_order, get_order_by_uid, ReadStep, Reply, WriteStep};
use order_store::model::{Delivery, Item, Order, Payment};
use order_store::row::{Column, Row, Value};
use order_store::statement::{Statement, StatementKind};
use order_store::store::{
    create_order, get_order, CreateAction, CreateEvent, FetchAction, FetchEvent,
};

fn item(chrt_id: i64, name: &str) -> Item {
    Item {
        chrt_id,
        track_number: "WBILMTESTTRACK".to_string(),
        price: 453,
        rid: "ab4219087a764ae0btest".to_string(),
        name: name.to_string(),
        sale: 30,
        size: "0".to_string(),
        total_price: 317,
        nm_id: 2389212,
        brand: "Vivienne Sabo".to_string(),
        status: 202,
    }
}

fn order(uid: &str, items: Vec<Item>) -> Order {
    Order {
        order_uid: uid.to_string(),
        track_number: format!("track-{}", uid),
        entry: "WBIL".to_string(),
        delivery: Delivery {
            name: format!("name-{}", uid),
            phone: "+9720000000".to_string(),
            zip: "2639809".to_string(),
            city: "Kiryat Mozkin".to_string(),
            address: "Ploshad Mira 15".to_string(),
            region: "Kraiot".to_string(),
            email: "test@gmail.com".to_string(),
        },
        payment: Payment {
            transaction: uid.to_string(),
            request_id: String::new(),
            currency: "USD".to_string(),
            provider: "wbpay".to_string(),
            amount: 1817,
            payment_dt: 1637907727,
            bank: "alpha".to_string(),
            delivery_cost: 1500,
            goods_total: 317,
            custom_fee: 0,
        },
        items,
        locale: "en".to_string(),
        internal_signature: String::new(),
        customer_id: "test".to_string(),
        delivery_service: "meest".to_string(),
        shardkey: "9".to_string(),
        sm_id: 99,
        date_created: "2021-11-26T06:22:19Z".to_string(),
        oof_shard: "1".to_string(),
    }
}

fn copy(v: &Value) -> Value {
    match v {
        Value::Text(s) => Value::Text(s.clone()),
        Value::Int(n) => Value::Int(*n),
    }
}

fn copies(vs: &[Value]) -> Vec<Value> {
    vs.iter().map(copy).collect()
}

fn named(names: &[&str], values: &[Value]) -> Vec<Column> {
    names
        .iter()
        .zip(values.iter())
        .map(|(n, v)| Column { name: n.to_string(), value: copy(v) })
        .collect()
}

/// A backend in memory: five tables that hold the parameters they were
/// given, a count of the statements it ran, and the statements themselves.
struct Backend {
    deliveries: Vec<Vec<Value>>,
    payments: Vec<Vec<Value>>,
    headers: Vec<Vec<Value>>,
    items: Vec<Vec<Value>>,
    links: Vec<Vec<Value>>,
    calls: usize,
    log: Vec<StatementKind>,
    broken: Option<StatementKind>,
}

impl Backend {
    fn new() -> Backend {
        Backend {
            deliveries: Vec::new(),
            payments: Vec::new(),
            headers: Vec::new(),
            items: Vec::new(),
            links: Vec::new(),
            calls: 0,
            log: Vec::new(),
            broken: None,
        }
    }

    fn run(&mut self, s: &Statement) -> Reply {
        self.calls += 1;
        self.log.push(s.kind);
        if self.broken == Some(s.kind) {
            return Reply::Failed(backend_failure("08006", "connection lost".to_string()));
        }
        match s.kind {
            StatementKind::InsertDelivery => {
                let id = self.deliveries.len() as i64 + 1;
                self.deliveries.push(copies(&s.params));
                Reply::Rows(vec![Row {
                    columns: vec![Column {
                        name: "delivery_id".to_string(),
                        value: Value::Int(id),
                    }],
                }])
            }
            StatementKind::InsertPayment => {
                if self.payments.iter().any(|p| p[0] == s.params[0]) {
                    return Reply::Failed(backend_failure(
                        "23505",
                        "duplicate key value violates unique constraint".to_string(),
                    ));
                }
                self.payments.push(copies(&s.params));
                Reply::Executed
            }
            StatementKind::InsertOrder => {
                self.headers.push(copies(&s.params));
                Reply::Executed
            }
            StatementKind::InsertItem => {
                self.items.push(copies(&s.params));
                Reply::Executed
            }
            StatementKind::InsertOrderItem => {
                self.links.push(copies(&s.params));
                Reply::Executed
            }
            StatementKind::SelectOrder => {
                let mut rows = Vec::new();
                for h in self.headers.iter().filter(|h| h[0] == s.params[0]) {
                    let d = match &h[3] {
                        Value::Int(id) => &self.deliveries[(*id - 1) as usize],
                        Value::Text(_) => panic!("a delivery is named by a number"),
                    };
                    let p = self.payments.iter().find(|p| p[0] == h[4]).expect("payment");
                    let mut columns = named(
                        &[
                            "order_uid",
                            "track_number",
                            "entry",
                            "delivery_id",
                            "payment_transaction",
                            "locale",
                            "internal_signature",
                            "customer_id",
                            "delivery_service",
                            "shardkey",
                            "sm_id",
                            "date_created",
                            "oof_shard",
                        ],
                        h,
                    );
                    columns.extend(named(
                        &["name", "phone", "zip", "city", "address", "region", "email"],
                        d,
                    ));
                    columns.extend(named(
                        &[
                            "transaction",
                            "request_id",
                            "currency",
                            "provider",
                            "amount",
                            "payment_dt",
                            "bank",
                            "delivery_cost",
                            "goods_total",
                            "custom_fee",
                        ],
                        p,
                    ));
                    rows.push(Row { columns });
                }
                Reply::Rows(rows)
            }
            StatementKind::SelectItems => {
                let mut rows = Vec::new();
                for l in self.links.iter().filter(|l| l[0] == s.params[0]) {
                    for i in self.items.iter().filter(|i| i[0] == l[1]) {
                        rows.push(Row {
                            columns: named(
                                &[
                                    "chrt_id",
                                    "track_number",
                                    "price",
                                    "rid",
                                    "name",
                                    "sale",
                                    "size",
                                    "total_price",
                                    "nm_id",
                                    "brand",
                                    "status",
                                ],
                                i,
                            ),
                        });
                    }
                }
                Reply::Rows(rows)
            }
        }
    }

    fn write(&mut self, order: Order) -> Result<(), StoreError> {
        let mut step = add_order(order);
        loop {
            match step {
                WriteStep::Run(write, statement) => {
                    let reply = self.run(&statement);
                    step = write.advance(reply);
                }
                WriteStep::Finished(_) => return Ok(()),
                WriteStep::Failed(e) => return Err(e),
            }
        }
    }

    fn read(&mut self, uid: &String) -> Result<Order, StoreError> {
        let mut step = get_order_by_uid(uid);
        loop {
            match step {
                ReadStep::Run(read, statement) => {
                    let reply = self.run(&statement);
                    step = read.advance(reply);
                }
                ReadStep::Found(order) => return Ok(order),
                ReadStep::Failed(e) => return Err(e),
            }
        }
    }
}

fn create(cache: &mut OrderCache, backend: &mut Backend, o: Order) -> Result<Order, StoreError> {
    let mut event = CreateEvent::Request(o);
    loop {
        match create_order(cache, event) {
            CreateAction::Run(write, statement) => {
                let reply = backend.run(&statement);
                event = CreateEvent::Reply(write, reply);
            }
            CreateAction::Respond(order) => return Ok(order),
            CreateAction::Fail(e) => return Err(e),
        }
    }
}

fn fetch(cache: &mut OrderCache, backend: &mut Backend, uid: &str) -> Result<Order, StoreError> {
    let mut event = FetchEvent::Request(uid.to_string());
    loop {
        match get_order(cache, event) {
            FetchAction::Run(read, statement) => {
                let reply = backend.run(&statement);
                event = FetchEvent::Reply(read, reply);
            }
            FetchAction::Respond(order) => return Ok(order),
            FetchAction::Fail(e) => return Err(e),
        }
    }
}

fn cache(capacity: usize) -> OrderCache {
    OrderCache::new(capacity).expect("a positive capacity")
}

#[test]
fn an_order_with_one_item_is_created_and_fetched() {
    let mut c = cache(10);
    let mut b = Backend::new();
    let o = order("b563feb7b2b84b6test", vec![item(9934930, "Mascaras")]);
    assert_eq!(o.payment.transaction, "b563feb7b2b84b6test");
    assert_eq!(create(&mut c, &mut b, o.clone()), Ok(o.clone()));
    let got = fetch(&mut c, &mut b, "b563feb7b2b84b6test").expect("the order");
    assert_eq!(got.items.len(), 1);
    assert_eq!(got.items[0].chrt_id, 9934930);
    assert_eq!(got, o);
}

#[test]
fn a_created_order_is_read_back_from_the_backend_equal_in_every_field() {
    let mut b = Backend::new();
    let o = order("u1", vec![item(1, "a"), item(2, "b"), item(3, "c")]);
    assert_eq!(b.write(o.clone()), Ok(()));
    let mut fresh = cache(10);
    assert_eq!(fetch(&mut fresh, &mut b, "u1"), Ok(o));
}

#[test]
fn an_order_without_items_is_created_and_read_back() {
    let mut b = Backend::new();
    let o = order("u0", Vec::new());
    assert_eq!(b.write(o.clone()), Ok(()));
    assert_eq!(
        b.log,
        vec![
            StatementKind::InsertDelivery,
            StatementKind::InsertPayment,
            StatementKind::InsertOrder
        ]
    );
    assert_eq!(b.read(&"u0".to_string()), Ok(o));
}

#[test]
fn the_statements_of_a_write_come_in_their_order() {
    let mut b = Backend::new();
    assert_eq!(b.write(order("u1", vec![item(1, "a"), item(2, "b")])), Ok(()));
    assert_eq!(
        b.log,
        vec![
            StatementKind::InsertDelivery,
            StatementKind::InsertPayment,
            StatementKind::InsertOrder,
            StatementKind::InsertItem,
            StatementKind::InsertOrderItem,
            StatementKind::InsertItem,
            StatementKind::InsertOrderItem,
        ]
    );
    assert_eq!(b.headers[0][3], Value::Int(1));
    assert_eq!(b.links[0], vec![Value::Text("u1".to_string()), Value::Int(1)]);
    assert_eq!(b.links[1], vec![Value::Text("u1".to_string()), Value::Int(2)]);
}

#[test]
fn the_header_names_the_delivery_that_the_backend_numbered() {
    let mut b = Backend::new();
    assert_eq!(b.write(order("u1", Vec::new())), Ok(()));
    assert_eq!(b.write(order("u2", Vec::new())), Ok(()));
    assert_eq!(b.headers[1][3], Value::Int(2));
}

#[test]
fn a_second_fetch_does_not_ask_the_backend() {
    let mut b = Backend::new();
    let o = order("u1", vec![item(1, "a")]);
    assert_eq!(b.write(o.clone()), Ok(()));
    let mut c = cache(10);
    assert_eq!(fetch(&mut c, &mut b, "u1"), Ok(o.clone()));
    let calls = b.calls;
    assert_eq!(fetch(&mut c, &mut b, "u1"), Ok(o));
    assert_eq!(b.calls, calls);
}

#[test]
fn a_fetch_after_a_create_does_not_ask_the_backend() {
    let mut b = Backend::new();
    let mut c = cache(10);
    let o = order("u1", vec![item(1, "a")]);
    assert!(create(&mut c, &mut b, o.clone()).is_ok());
    let calls = b.calls;
    assert_eq!(fetch(&mut c, &mut b, "u1"), Ok(o));
    assert_eq!(b.calls, calls);
}

#[test]
fn an_unknown_identifier_is_not_found() {
    let mut b = Backend::new();
    let mut c = cache(10);
    assert!(create(&mut c, &mut b, order("u1", Vec::new())).is_ok());
    let e = fetch(&mut c, &mut b, "nobody").expect_err("no such order");
    assert_eq!(e, StoreError::NotFound);
    assert!(e.is_not_found());
    assert_eq!(e.message(), "order not found");
    assert_eq!(c.len(), 1);
}

#[test]
fn a_second_create_under_one_identifier_is_refused_by_the_backend() {
    let mut b = Backend::new();
    let mut c = cache(10);
    let first = order("u1", vec![item(1, "a")]);
    let mut second = order("u1", vec![item(2, "b")]);
    second.track_number = "other".to_string();
    assert!(create(&mut c, &mut b, first.clone()).is_ok());
    let e = create(&mut c, &mut b, second).expect_err("the transaction exists");
    assert_eq!(
        e,
        StoreError::Constraint("duplicate key value violates unique constraint".to_string())
    );
    assert!(!e.is_not_found());
    assert_eq!(c.len(), 1);
    assert_eq!(fetch(&mut c, &mut b, "u1"), Ok(first));
}

#[test]
fn a_second_create_that_the_backend_stores_replaces_the_cached_order() {
    let mut b = Backend::new();
    let mut c = cache(10);
    let first = order("u1", vec![item(1, "a")]);
    let mut second = order("u1", vec![item(2, "b")]);
    second.payment.transaction = "t2".to_string();
    assert_eq!(create(&mut c, &mut b, first.clone()), Ok(first));
    assert_eq!(create(&mut c, &mut b, second.clone()), Ok(second.clone()));
    assert_eq!(c.len(), 1);
    assert_eq!(c.get(&"u1".to_string()), Some(second));
}

#[test]
fn a_failed_write_leaves_the_cache_alone() {
    let mut b = Backend::new();
    let mut c = cache(10);
    b.broken = Some(StatementKind::InsertOrder);
    let e = create(&mut c, &mut b, order("u1", vec![item(1, "a")])).expect_err("broken");
    assert_eq!(e, StoreError::Backend("connection lost".to_string()));
    assert_eq!(e.message(), "connection lost");
    assert_eq!(c.len(), 0);
    assert_eq!(
        b.log,
        vec![
            StatementKind::InsertDelivery,
            StatementKind::InsertPayment,
            StatementKind::InsertOrder
        ]
    );
    assert_eq!(b.deliveries.len(), 1);
    assert_eq!(b.payments.len(), 1);
    assert!(b.items.is_empty());
}

#[test]
fn a_failed_read_leaves_the_cache_alone() {
    let mut b = Backend::new();
    let mut c = cache(10);
    assert_eq!(b.write(order("u1", vec![item(1, "a")])), Ok(()));
    b.broken = Some(StatementKind::SelectItems);
    assert_eq!(
        fetch(&mut c, &mut b, "u1"),
        Err(StoreError::Backend("connection lost".to_string()))
    );
    assert_eq!(c.len(), 0);
}

#[test]
fn orders_created_one_after_another_do_not_mix() {
    let mut b = Backend::new();
    let mut c = cache(2);
    let all: Vec<Order> = (0..6)
        .map(|n| order(&format!("u{}", n), vec![item(100 + n, &format!("item-{}", n))]))
        .collect();
    for o in &all {
        assert_eq!(create(&mut c, &mut b, o.clone()), Ok(o.clone()));
    }
    assert_eq!(c.len(), 2);
    for o in &all {
        assert_eq!(fetch(&mut c, &mut b, &o.order_uid), Ok(o.clone()));
    }
}

#[test]
fn a_fetched_order_is_protected_from_the_next_eviction() {
    let mut b = Backend::new();
    let mut c = cache(2);
    for uid in ["a", "b"] {
        assert!(create(&mut c, &mut b, order(uid, Vec::new())).is_ok());
    }
    assert!(fetch(&mut c, &mut b, "a").is_ok());
    assert!(create(&mut c, &mut b, order("c", Vec::new())).is_ok());
    let calls = b.calls;
    assert!(fetch(&mut c, &mut b, "a").is_ok());
    assert_eq!(b.calls, calls);
    assert!(fetch(&mut c, &mut b, "b").is_ok());
    assert_eq!(b.calls, calls + 2);
}

#[test]
fn a_request_to_create_begins_with_the_delivery_and_leaves_the_cache_alone() {
    let mut c = cache(10);
    let o = order("u1", vec![item(1, "a")]);
    match create_order(&mut c, CreateEvent::Request(o.clone())) {
        CreateAction::Run(_, statement) => {
            assert_eq!(statement.kind, StatementKind::InsertDelivery);
            assert_eq!(statement.params[0], Value::Text("name-u1".to_string()));
        }
        other => panic!("a creation begins with a statement, not with {:?}", other),
    }
    assert_eq!(c.len(), 0);
}

#[test]
fn a_request_that_misses_the_cache_begins_with_the_order_query() {
    let mut c = cache(10);
    match get_order(&mut c, FetchEvent::Request("u1".to_string())) {
        FetchAction::Run(_, statement) => {
            assert_eq!(statement.kind, StatementKind::SelectOrder);
            assert_eq!(statement.params, vec![Value::Text("u1".to_string())]);
        }
        other => panic!("a miss begins a read, not {:?}", other),
    }
    assert_eq!(c.len(), 0);
}

#[test]
fn an_order_is_cached_only_when_its_last_statement_ran() {
    let mut b = Backend::new();
    let mut c = cache(10);
    let mut event = CreateEvent::Request(order("u1", vec![item(1, "a")]));
    let mut ran = 0;
    loop {
        match create_order(&mut c, event) {
            CreateAction::Run(write, statement) => {
                assert_eq!(c.len(), 0);
                ran += 1;
                event = CreateEvent::Reply(write, b.run(&statement));
            }
            CreateAction::Respond(_) => break,
            CreateAction::Fail(e) => panic!("the backend works: {:?}", e),
        }
    }
    assert_eq!(ran, 5);
    assert_eq!(c.len(), 1);
}

#[test]
fn a_delivery_reply_without_an_identifier_ends_the_write() {
    for reply in [
        Reply::Executed,
        Reply::Rows(Vec::new()),
        Reply::Rows(vec![Row { columns: Vec::new() }]),
        Reply::Rows(vec![Row {
            columns: vec![Column {
                name: "delivery_id".to_string(),
                value: Value::Text("7".to_string()),
            }],
        }]),
    ] {
        match add_order(order("u1", Vec::new())) {
            WriteStep::Run(write, _) => {
                assert_eq!(write.advance(reply), WriteStep::Failed(StoreError::Integrity))
            }
            other => panic!("the write begins with a statement, not with {:?}", other),
        }
    }
}

#[test]
fn a_reply_that_is_no_order_ends_the_read() {
    let uid = "u1".to_string();
    let two = vec![Row { columns: Vec::new() }, Row { columns: Vec::new() }];
    let one = vec![Row { columns: Vec::new() }];
    for reply in [Reply::Executed, Reply::Rows(two), Reply::Rows(one)] {
        match get_order_by_uid(&uid) {
            ReadStep::Run(read, statement) => {
                assert_eq!(statement.kind, StatementKind::SelectOrder);
                assert_eq!(read.advance(reply), ReadStep::Failed(StoreError::Integrity));
            }
            other => panic!("the read begins with a query, not with {:?}", other),
        }
    }
    match get_order_by_uid(&uid) {
        ReadStep::Run(read, _) => {
            let step = read.advance(Reply::Rows(Vec::new()));
            assert_eq!(step, ReadStep::Failed(StoreError::NotFound))
        }
        other => panic!("the read begins with a query, not with {:?}", other),
    }
}

#[test]
fn item_rows_that_are_no_items_end_the_read() {
    let mut b = Backend::new();
    assert_eq!(b.write(order("u1", Vec::new())), Ok(()));
    let uid = "u1".to_string();
    let step = match get_order_by_uid(&uid) {
        ReadStep::Run(read, statement) => read.advance(b.run(&statement)),
        other => panic!("the read begins with a query, not with {:?}", other),
    };
    match step {
        ReadStep::Run(read, statement) => {
            assert_eq!(statement.kind, StatementKind::SelectItems);
            assert_eq!(statement.params, vec![Value::Text("u1".to_string())]);
            let bad = Reply::Rows(vec![Row { columns: Vec::new() }]);
            assert_eq!(read.advance(bad), ReadStep::Failed(StoreError::Integrity));
        }
        other => panic!("the item query comes next, not {:?}", other),
    }
}

#[test]
fn backend_errors_are_told_apart_by_their_code() {
    assert_eq!(backend_failure("23505", "m".to_string()), StoreError::Constraint("m".to_string()));
    assert_eq!(backend_failure("23000", "m".to_string()), StoreError::Constraint("m".to_string()));
    assert_eq!(backend_failure("22001", "m".to_string()), StoreError::Backend("m".to_string()));
    assert_eq!(backend_failure("", "m".to_string()), StoreError::Backend("m".to_string()));
    assert_eq!(backend_failure("23", "m".to_string()), StoreError::Backend("m".to_string()));
    assert_eq!(backend_failure("235050", "m".to_string()), StoreError::Backend("m".to_string()));
}

#[test]
fn every_failure_has_its_message() {
    assert_eq!(StoreError::NotFound.message(), "order not found");
    assert_eq!(StoreError::Constraint("c".to_string()).message(), "c");
    assert_eq!(StoreError::Backend("b".to_string()).message(), "b");
    assert_eq!(StoreError::Integrity.message(), "backend returned an unexpected row");
    assert_eq!(StoreError::Config.message(), "invalid cache size");
    assert!(StoreError::NotFound.is_not_found());
    assert!(!StoreError::Integrity.is_not_found());
}
