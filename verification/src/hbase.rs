//! The mapping service: the four operations the rest of the system calls —
//! create, get-by-id, list-tables and get-by-owner — composed from the codec
//! and a store client supplied, already connected, by the caller.

use vstd::prelude::*;
use vstd::utf8::decode_utf8;
use vstd::utf8::valid_utf8;

use crate::errors::OrderServiceError;
use crate::hbase_types::BatchMutation;
use crate::hbase_types::FamilyCreationParams;
use crate::hbase_types::TRowResult;
use crate::hbase_types::TScan;
use crate::hbase_utils::create_mutation_from_order;
use crate::hbase_utils::create_order_builder_from_hbase_row;
use crate::hbase_utils::decode_row;
use crate::hbase_utils::owner_scan;
use crate::orders::info_of_builder;
use crate::orders::order_of_builder;
use crate::orders::Order;
use crate::orders::OrderInfo;
use crate::tables::TableName;

verus! {

/// The store operations the mapping layer needs of any client.  The caller
/// connects one per call; a test double can stand in for it.  Nothing is
/// assumed of what an implementation returns: every caller here states only
/// what holds of its own work, whatever came back.
pub trait HbaseClient {
    fn get_table_names(&mut self) -> Result<Vec<Vec<u8>>, OrderServiceError>;

    fn put(
        &mut self,
        table_name: &str,
        row_batches: Vec<BatchMutation>,
        timestamp: Option<i64>,
    ) -> Result<(), OrderServiceError>;

    fn create_table(&mut self, table_name: &str, column_families: Vec<String>) -> Result<
        (),
        OrderServiceError,
    >;

    fn get_row(&mut self, row_id: &str) -> Result<Vec<TRowResult>, OrderServiceError>;

    fn scanner_open_with_scan(&mut self, table_name: &str, scan: TScan) -> Result<
        i32,
        OrderServiceError,
    >;

    fn scanner_get_list(&mut self, id: i32, nb_rows: i32) -> Result<
        Vec<TRowResult>,
        OrderServiceError,
    >;
}

/// Relies on std's `SystemTime::now` and `duration_since`: the wall clock in
/// milliseconds since the epoch, or zero if the clock reads before it.
#[verifier::external_body]
fn get_unix_time() -> i64 {
    let now = std::time::SystemTime::now();
    match now.duration_since(std::time::UNIX_EPOCH) {
        Ok(d) => d.as_millis() as i64,
        Err(_) => 0,
    }
}

/// The table names among `raw`, in order; names that are not UTF-8 are
/// dropped.
pub open spec fn table_names_of(raw: Seq<Vec<u8>>) -> Seq<Seq<char>>
    decreases raw.len(),
{
    if raw.len() == 0 {
        Seq::empty()
    } else {
        table_names_of(raw.drop_last()) + (if valid_utf8(raw.last()@) {
            seq![decode_utf8(raw.last()@)]
        } else {
            Seq::empty()
        })
    }
}

/// Wrap raw table names as domain values, dropping any that is not UTF-8.
pub fn table_names_from_bytes(raw: Vec<Vec<u8>>) -> (r: Vec<TableName>)
    ensures
        r@.map_values(|t: TableName| t@) == table_names_of(raw@),
{
    let mut out: Vec<TableName> = Vec::new();
    let mut i: usize = 0;
    proof {
        assert(raw@.take(0) =~= Seq::<Vec<u8>>::empty());
        assert(out@.map_values(|t: TableName| t@) =~= Seq::<Seq<char>>::empty());
    }
    while i < raw.len()
        invariant
            0 <= i <= raw@.len(),
            out@.map_values(|t: TableName| t@) == table_names_of(raw@.take(i as int)),
        decreases raw@.len() - i,
    {
        let ghost prev = out@;
        match crate::hbase_utils::get_value(Some(raw[i].clone())) {
            Some(name) => {
                out.push(TableName::new(name));
                proof {
                    assert(out@.map_values(|t: TableName| t@) =~= prev.map_values(
                        |t: TableName| t@,
                    ).push(out@.last()@));
                }
            },
            None => {},
        }
        proof {
            assert(raw@.take(i as int + 1).drop_last() =~= raw@.take(i as int));
            assert(raw@.take(i as int + 1).last() == raw@[i as int]);
            assert(out@.map_values(|t: TableName| t@) =~= table_names_of(
                raw@.take(i as int + 1),
            ));
        }
        i = i + 1;
    }
    proof {
        assert(raw@.take(raw@.len() as int) =~= raw@);
    }
    out
}

/// List the store's tables, wrapped as domain values.
pub fn get_tables<H: HbaseClient>(mut client: H) -> Result<Vec<TableName>, OrderServiceError> {
    let tables = match client.get_table_names() {
        Ok(t) => t,
        Err(e) => {
            return Err(e);
        },
    };
    Ok(table_names_from_bytes(tables))
}

/// Persist an order: encode it, write the batch under the current wall-clock
/// timestamp, and return the derived row key.  A store failure propagates
/// unchanged.
pub fn add_order<H: HbaseClient>(order: &Order, mut client: H) -> (r: Result<
    String,
    OrderServiceError,
>)
    ensures
        r matches Ok(k) ==> k@ == order.o_id@,
{
    let (batch, rowkey) = create_mutation_from_order(order);
    let mut batches: Vec<BatchMutation> = Vec::new();
    batches.push(batch);
    match client.put("orders", batches, Some(get_unix_time())) {
        Ok(_) => Ok(rowkey),
        Err(e) => Err(e),
    }
}

/// The four column families of the order table's schema: the scalar info
/// columns, the owning ids, the two addresses, and one family holding a
/// column per line item.
pub fn order_table_families() -> (r: Vec<String>)
    ensures
        r@.len() == 4,
        r@[0]@ == "info"@,
        r@[1]@ == "ids"@,
        r@[2]@ == "addr"@,
        r@[3]@ == "ol"@,
{
    let mut families: Vec<String> = Vec::new();
    families.push("info".to_owned());
    families.push("ids".to_owned());
    families.push("addr".to_owned());
    families.push("ol".to_owned());
    families
}

/// The creation parameters for each of those families: at most three
/// versions retained, a time-to-live that never expires, no compression and
/// no bloom filter.
pub fn family_creation_params() -> (r: FamilyCreationParams)
    ensures
        r.max_versions == 3i32,
        r.time_to_live == 0x7fffffffi32,
        r.compression@ == "NONE"@,
        r.bloom_filter_type@ == "NONE"@,
{
    FamilyCreationParams {
        max_versions: 3,
        time_to_live: 0x7fffffff,
        compression: "NONE".to_owned(),
        bloom_filter_type: "NONE".to_owned(),
    }
}

/// Create the order table, handing the client the four families of
/// `order_table_families`; the client must treat an existing table as
/// success and apply `family_creation_params` to each family.
pub fn create_order_table<H: HbaseClient>(mut client: H) -> Result<(), OrderServiceError> {
    match client.create_table("orders", order_table_families()) {
        Ok(_) => Ok(()),
        Err(e) => Err(e),
    }
}

/// What a get-by-id yields once the store has answered with `rows`: no rows
/// is `RowNotFound` for that id; otherwise the first row must decode to a
/// complete builder, else `OrderBuildFailed`.
pub fn order_from_rows(row_id: &str, rows: Vec<TRowResult>) -> (r: Result<
    Order,
    OrderServiceError,
>)
    ensures
        rows@.len() == 0 ==> (r matches Err(e) && e matches OrderServiceError::RowNotFound(id)
            && id@ == row_id@),
        rows@.len() > 0 ==> match r {
            Ok(o) => Some(o@) == order_of_builder(decode_row(rows@[0])),
            Err(e) => order_of_builder(decode_row(rows@[0])) is None && e
                matches OrderServiceError::OrderBuildFailed(),
        },
{
    if rows.len() == 0 {
        return Err(OrderServiceError::RowNotFound(row_id.to_owned()));
    }
    let row = &rows[0];
    match Order::build(create_order_builder_from_hbase_row(row)) {
        Some(v) => Ok(v),
        None => Err(OrderServiceError::OrderBuildFailed()),
    }
}

/// Fetch one order by its row key: an absent row is `RowNotFound`, an
/// undecodable one `OrderBuildFailed`, and a store failure propagates.
pub fn get_order_row<H: HbaseClient>(row_id: &str, mut client: H) -> Result<
    Order,
    OrderServiceError,
> {
    let rows = match client.get_row(row_id) {
        Ok(v) => v,
        Err(e) => {
            return Err(e);
        },
    };
    order_from_rows(row_id, rows)
}

/// The summaries of the rows that decode to a complete builder, in row
/// order; the rest are dropped.
pub open spec fn infos_of_rows(rows: Seq<TRowResult>) -> Seq<crate::orders::OrderInfoView>
    decreases rows.len(),
{
    if rows.len() == 0 {
        Seq::empty()
    } else {
        infos_of_rows(rows.drop_last()) + (match info_of_builder(decode_row(rows.last())) {
            Some(iv) => seq![iv],
            None => Seq::empty(),
        })
    }
}

/// Decode every fetched row independently into a summary, silently dropping
/// rows whose builder cannot complete.
pub fn infos_from_rows(rows: &Vec<TRowResult>) -> (r: Vec<OrderInfo>)
    ensures
        r@.map_values(|o: OrderInfo| o@) == infos_of_rows(rows@),
{
    let mut out: Vec<OrderInfo> = Vec::new();
    let mut i: usize = 0;
    proof {
        assert(rows@.take(0) =~= Seq::<TRowResult>::empty());
        assert(out@.map_values(|o: OrderInfo| o@) =~= Seq::<crate::orders::OrderInfoView>::empty());
    }
    while i < rows.len()
        invariant
            0 <= i <= rows@.len(),
            out@.map_values(|o: OrderInfo| o@) == infos_of_rows(rows@.take(i as int)),
        decreases rows@.len() - i,
    {
        let ghost prev = out@;
        let builder = create_order_builder_from_hbase_row(&rows[i]);
        match OrderInfo::build(builder) {
            Some(info) => {
                out.push(info);
                proof {
                    assert(out@.map_values(|o: OrderInfo| o@) =~= prev.map_values(
                        |o: OrderInfo| o@,
                    ).push(out@.last()@));
                }
            },
            None => {},
        }
        proof {
            assert(rows@.take(i as int + 1).drop_last() =~= rows@.take(i as int));
            assert(rows@.take(i as int + 1).last() == rows@[i as int]);
            assert(out@.map_values(|o: OrderInfo| o@) =~= infos_of_rows(rows@.take(i as int + 1)));
        }
        i = i + 1;
    }
    proof {
        assert(rows@.take(rows@.len() as int) =~= rows@);
    }
    out
}

/// All orders owned by one customer, as summaries: the `owner_scan`
/// descriptor opened against the store, fetched as one page of at most
/// fifteen rows, each row decoded tolerantly and dropped if incomplete.
pub fn get_orders_info_by_user<H: HbaseClient>(user_id: String, mut client: H) -> Result<
    Vec<OrderInfo>,
    OrderServiceError,
> {
    let scan = owner_scan(user_id.as_str());
    let scanid = match client.scanner_open_with_scan("orders", scan) {
        Ok(v) => v,
        Err(e) => {
            return Err(e);
        },
    };
    let res = match client.scanner_get_list(scanid, 15) {
        Ok(v) => v,
        Err(e) => {
            return Err(e);
        },
    };
    Ok(infos_from_rows(&res))
}

} // verus!
