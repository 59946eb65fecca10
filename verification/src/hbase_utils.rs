//! The row codec: encoding an order as cell mutations, tolerant decoding of
//! fetched rows into an `OrderBuilder`, and the scan descriptor for the
//! owner lookup.

use vstd::prelude::*;
use vstd::string::StrSliceExecFns;
use vstd::string::StringExecFns;
use vstd::utf8::decode_utf8;
use vstd::utf8::valid_utf8;

use crate::hbase_types::BatchMutation;
use crate::hbase_types::Mutation;
use crate::hbase_types::MutationBuilder;
use crate::hbase_types::TCell;
use crate::hbase_types::TRowResult;
use crate::hbase_types::TScan;
use crate::orders::line_text;
use crate::orders::order_of_builder;
use crate::orders::parse_orderline;
use crate::orders::state_name;
use crate::orders::Order;
use crate::orders::OrderBuilder;
use crate::orders::OrderBuilderView;
use crate::orders::Orderline;
use crate::text::dec_str;
use crate::text::first_colon_idx;
use crate::text::lemma_first_colon_at;
use crate::text::lemma_first_colon_none;
use crate::text::str_eq;
use crate::text::usize_to_dec;
use vstd::utf8::encode_utf8;

verus! {

broadcast use vstd::string::group_string_axioms;

/// Relies on std's `str::from_utf8`: it succeeds exactly on the byte
/// sequences that are valid UTF-8, and yields their decoded characters.
#[verifier::external_body]
fn bytes_to_str(v: &[u8]) -> (r: Option<&str>)
    ensures
        r is Some <==> valid_utf8(v@),
        r matches Some(s) ==> s@ == decode_utf8(v@),
{
    std::str::from_utf8(v).ok()
}

/// Splitting a column name: UTF-8 text with at least one `':'` splits at the
/// first `':'` into family and qualifier; anything else is rejected.
pub open spec fn split_column(col: Seq<u8>) -> Option<(Seq<char>, Seq<char>)> {
    if !valid_utf8(col) {
        None
    } else {
        let chars = decode_utf8(col);
        let k = first_colon_idx(chars);
        if k < 0 {
            None
        } else {
            Some((chars.take(k), chars.skip(k + 1)))
        }
    }
}

/// The view of an optional byte vector.
pub open spec fn opt_bytes(o: Option<Vec<u8>>) -> Option<Seq<u8>> {
    match o {
        Some(v) => Some(v@),
        None => None,
    }
}

/// Parsing one cell: the split column name plus the UTF-8 decoded value.
pub open spec fn cell_parse(col: Seq<u8>, val: Option<Seq<u8>>) -> Option<
    ((Seq<char>, Seq<char>), Seq<char>),
> {
    match split_column(col) {
        Some(fq) => match val {
            Some(vb) => if valid_utf8(vb) {
                Some((fq, decode_utf8(vb)))
            } else {
                None
            },
            None => None,
        },
        None => None,
    }
}

/// What one recognized column does to the builder: a scalar field is set
/// (last write wins), a parseable `ol` value is appended, and anything
/// unrecognized or malformed leaves the builder unchanged.
pub open spec fn apply_field(
    b: OrderBuilderView,
    f: Seq<char>,
    q: Seq<char>,
    v: Seq<char>,
) -> OrderBuilderView {
    if f == "info"@ {
        if q == "o_id"@ {
            OrderBuilderView { o_id: Some(v), ..b }
        } else if q == "o_time"@ {
            OrderBuilderView { ordertime: Some(v), ..b }
        } else if q == "state"@ {
            OrderBuilderView { state: Some(v), ..b }
        } else {
            b
        }
    } else if f == "ids"@ {
        if q == "c_id"@ {
            OrderBuilderView { c_id: Some(v), ..b }
        } else if q == "r_id"@ {
            OrderBuilderView { r_id: Some(v), ..b }
        } else {
            b
        }
    } else if f == "addr"@ {
        if q == "c_addr"@ {
            OrderBuilderView { cust_addr: Some(v), ..b }
        } else if q == "r_addr"@ {
            OrderBuilderView { rest_addr: Some(v), ..b }
        } else {
            b
        }
    } else if f == "ol"@ {
        match parse_orderline(v) {
            Some(l) => OrderBuilderView { orderlines: b.orderlines.push(l), ..b },
            None => b,
        }
    } else {
        b
    }
}

/// What one raw cell does to the builder.
pub open spec fn apply_cell(
    b: OrderBuilderView,
    col: Seq<u8>,
    val: Option<Seq<u8>>,
) -> OrderBuilderView {
    match cell_parse(col, val) {
        Some(((f, q), v)) => apply_field(b, f, q, v),
        None => b,
    }
}

/// Decoding a cell list: each cell applied in turn, front to back.
pub open spec fn decode_cells(
    b: OrderBuilderView,
    cells: Seq<(Seq<u8>, Option<Seq<u8>>)>,
) -> OrderBuilderView
    decreases cells.len(),
{
    if cells.len() == 0 {
        b
    } else {
        decode_cells(apply_cell(b, cells[0].0, cells[0].1), cells.drop_first())
    }
}

/// The raw cell data of a fetched row's column entries.
pub open spec fn row_cell_data(cols: Seq<(Vec<u8>, TCell)>) -> Seq<
    (Seq<u8>, Option<Seq<u8>>),
> {
    Seq::new(cols.len(), |i: int| (cols[i].0@, opt_bytes(cols[i].1.value)))
}

/// The builder a fetched row decodes to.
pub open spec fn decode_row(row: TRowResult) -> OrderBuilderView {
    match row.columns {
        Some(cols) => decode_cells(OrderBuilderView::empty(), row_cell_data(cols@)),
        None => OrderBuilderView::empty(),
    }
}

/// Split a raw column name into `(family, qualifier)` at the first `':'`;
/// non-UTF-8 names and names without a `':'` are rejected.
pub fn get_column(col: Vec<u8>) -> (r: Option<(String, String)>)
    ensures
        r is Some <==> split_column(col@) is Some,
        r matches Some(p) ==> split_column(col@) matches Some(q) && p.0@ == q.0 && p.1@ == q.1,
{
    let s = match bytes_to_str(col.as_slice()) {
        Some(v) => v,
        None => {
            return None;
        },
    };
    let len = s.unicode_len();
    let mut i: usize = 0;
    while i < len
        invariant
            len == s@.len(),
            0 <= i <= len,
            valid_utf8(col@),
            s@ == decode_utf8(col@),
            forall|j: int| 0 <= j < i ==> #[trigger] s@[j] != ':',
        decreases len - i,
    {
        if s.get_char(i) == ':' {
            proof {
                lemma_first_colon_at(s@, i as int);
            }
            let fam = s.substring_char(0, i).to_owned();
            let qual = s.substring_char(i + 1, len).to_owned();
            proof {
                assert(fam@ =~= s@.take(i as int));
                assert(qual@ =~= s@.skip(i as int + 1));
            }
            return Some((fam, qual));
        }
        i = i + 1;
    }
    proof {
        lemma_first_colon_none(s@);
    }
    None
}

/// Decode a raw cell value as UTF-8 text; absent and non-UTF-8 values are
/// rejected.
pub fn get_value(cell: Option<Vec<u8>>) -> (r: Option<String>)
    ensures
        r is Some <==> (cell matches Some(v) && valid_utf8(v@)),
        r matches Some(s) ==> (cell matches Some(v) && s@ == decode_utf8(v@)),
{
    let bytes = match cell {
        Some(v) => v,
        None => {
            return None;
        },
    };
    match bytes_to_str(bytes.as_slice()) {
        Some(s) => Some(s.to_owned()),
        None => None,
    }
}

/// Split the column and decode the value of one raw cell.
pub fn get_column_and_value(col: Vec<u8>, cell: Option<Vec<u8>>) -> (r: Option<
    ((String, String), String),
>)
    ensures
        r is Some <==> cell_parse(col@, opt_bytes(cell)) is Some,
        r matches Some(p) ==> cell_parse(col@, opt_bytes(cell)) matches Some(q) && p.0.0@ == q.0.0
            && p.0.1@ == q.0.1 && p.1@ == q.1,
{
    let column = match get_column(col) {
        Some(c) => c,
        None => {
            return None;
        },
    };
    let value = match get_value(cell) {
        Some(v) => v,
        None => {
            return None;
        },
    };
    Some((column, value))
}

/// Route one decoded column into the builder: scalar fields are set (last
/// write wins), `ol` values parse into appended line items, and unknown
/// columns or malformed line items are skipped.
pub fn set_order_field(field: (String, String), val: String, order_builder: &mut OrderBuilder)
    ensures
        final (order_builder)@ == apply_field(
            old(order_builder)@,
            field.0@,
            field.1@,
            val@,
        ),
{
    let (fam, qual) = field;
    if str_eq(fam.as_str(), "info") {
        if str_eq(qual.as_str(), "o_id") {
            order_builder.o_id = Some(val);
        } else if str_eq(qual.as_str(), "o_time") {
            order_builder.ordertime = Some(val);
        } else if str_eq(qual.as_str(), "state") {
            order_builder.state = Some(val);
        }
    } else if str_eq(fam.as_str(), "ids") {
        if str_eq(qual.as_str(), "c_id") {
            order_builder.c_id = Some(val);
        } else if str_eq(qual.as_str(), "r_id") {
            order_builder.r_id = Some(val);
        }
    } else if str_eq(fam.as_str(), "addr") {
        if str_eq(qual.as_str(), "c_addr") {
            order_builder.cust_addr = Some(val);
        } else if str_eq(qual.as_str(), "r_addr") {
            order_builder.rest_addr = Some(val);
        }
    } else if str_eq(fam.as_str(), "ol") {
        match Orderline::from_str(val.as_str()) {
            Ok(ol) => {
                order_builder.orderlines.push(ol);
            },
            Err(_) => {},
        }
    }
}

/// Decode a fetched row into a builder, as far as its cells allow: every
/// unrecognized or malformed cell is skipped and the rest still land.
pub fn create_order_builder_from_hbase_row(hbase_row: &TRowResult) -> (b: OrderBuilder)
    ensures
        b@ == decode_row(*hbase_row),
{
    let mut order_builder = OrderBuilder::default();
    let cols = match &hbase_row.columns {
        Some(v) => v,
        None => {
            return order_builder;
        },
    };
    let ghost data = row_cell_data(cols@);
    let mut i: usize = 0;
    proof {
        assert(data.skip(0) =~= data);
    }
    while i < cols.len()
        invariant
            0 <= i <= cols@.len(),
            data == row_cell_data(cols@),
            decode_cells(order_builder@, data.skip(i as int)) == decode_cells(
                OrderBuilderView::empty(),
                data,
            ),
        decreases cols@.len() - i,
    {
        let entry = &cols[i];
        let col = entry.0.clone();
        let cell: Option<Vec<u8>> = match &entry.1.value {
            Some(v) => Some(v.clone()),
            None => None,
        };
        proof {
            assert(data[i as int].0 == entry.0@);
            assert(data[i as int].1 == opt_bytes(cell));
            assert(data.skip(i as int).drop_first() =~= data.skip(i as int + 1));
            assert(data.skip(i as int)[0] == data[i as int]);
        }
        match get_column_and_value(col, cell) {
            Some((column, value)) => {
                set_order_field(column, value, &mut order_builder);
            },
            None => {},
        }
        i = i + 1;
    }
    proof {
        assert(data.skip(cols@.len() as int) =~= Seq::<(Seq<u8>, Option<Seq<u8>>)>::empty());
    }
    order_builder
}

/// The stored column name: `family:qualifier` as UTF-8 bytes.
pub open spec fn col_bytes(f: Seq<char>, q: Seq<char>) -> Seq<u8> {
    encode_utf8(f + seq![':'] + q)
}

/// Join a family and qualifier into the stored column name bytes.
fn col_name_bytes(f: &str, q: &str) -> (r: Vec<u8>)
    ensures
        r@ == col_bytes(f@, q@),
{
    let mut s = String::new();
    s.append(f);
    s.append(":");
    s.append(q);
    proof {
        reveal_strlit(":");
        assert(":"@ =~= seq![':']);
        assert(s@ =~= f@ + seq![':'] + q@);
    }
    s.as_str().as_bytes_vec()
}

/// One cell write, with the column still split and the value as UTF-8 bytes.
pub fn create_cell_mutation(column_family: &str, column: &str, value: &str) -> (m: MutationBuilder)
    ensures
        m.column matches Some(p) && p.0@ == column_family@ && p.1@ == column@,
        m.value matches Some(v) && v@ == encode_utf8(value@),
{
    MutationBuilder {
        column: Some((column_family.to_owned(), column.to_owned())),
        value: Some(value.as_bytes_vec()),
    }
}

impl MutationBuilder {
    /// Join the split column into the stored `family:qualifier` name.
    pub fn build(&self) -> (m: Mutation)
        ensures
            self.column matches Some(p) ==> m.column matches Some(c) && c@ == col_bytes(
                p.0@,
                p.1@,
            ),
            self.column is None ==> m.column is None,
            self.value matches Some(v) ==> m.value matches Some(w) && w@ == v@,
            self.value is None ==> m.value is None,
    {
        let column = match &self.column {
            Some(pair) => Some(col_name_bytes(pair.0.as_str(), pair.1.as_str())),
            None => None,
        };
        let value = match &self.value {
            Some(v) => Some(v.clone()),
            None => None,
        };
        Mutation { column, value }
    }
}

/// The cell writes that encode an order, as `(column name, value)` byte
/// pairs: the six scalar columns, then one `ol:{index}` column per line
/// item.  The identifier is never among them; it is the row key.
pub open spec fn order_mutations(o: Order) -> Seq<(Seq<u8>, Seq<u8>)> {
    seq![
        (col_bytes("info"@, "o_time"@), encode_utf8(o.ordertime@)),
        (col_bytes("info"@, "state"@), encode_utf8(state_name(o.state))),
        (col_bytes("ids"@, "c_id"@), encode_utf8(o.c_id@)),
        (col_bytes("ids"@, "r_id"@), encode_utf8(o.r_id@)),
        (col_bytes("addr"@, "c_addr"@), encode_utf8(o.cust_addr@)),
        (col_bytes("addr"@, "r_addr"@), encode_utf8(o.rest_addr@)),
    ] + Seq::new(
        o.orderlines@.len(),
        |i: int| (col_bytes("ol"@, dec_str(i)), encode_utf8(line_text(o.orderlines@[i]))),
    )
}

/// Encode an order as one batch of cell writes plus its row key.
pub fn create_mutation_from_order(order: &Order) -> (r: (BatchMutation, String))
    ensures
        r.1@ == order.o_id@,
        r.0.row matches Some(k) && k@ == encode_utf8(order.o_id@),
        r.0.mutations matches Some(ms) && {
            &&& ms@.len() == order_mutations(*order).len()
            &&& forall|i: int|
                0 <= i < ms@.len() ==> ((#[trigger] ms@[i]).column matches Some(c) && c@
                    == order_mutations(*order)[i].0)
            &&& forall|i: int|
                0 <= i < ms@.len() ==> ((#[trigger] ms@[i]).value matches Some(v) && v@
                    == order_mutations(*order)[i].1)
        },
{
    let state_text = order.state.name();
    let otime_mut = create_cell_mutation("info", "o_time", order.ordertime.as_str()).build();
    let state_mut = create_cell_mutation("info", "state", state_text.as_str()).build();
    let cid_mut = create_cell_mutation("ids", "c_id", order.c_id.as_str()).build();
    let rid_mut = create_cell_mutation("ids", "r_id", order.r_id.as_str()).build();
    let caddr_mut = create_cell_mutation("addr", "c_addr", order.cust_addr.as_str()).build();
    let raddr_mut = create_cell_mutation("addr", "r_addr", order.rest_addr.as_str()).build();

    let mut mutations: Vec<Mutation> = Vec::new();
    mutations.push(otime_mut);
    mutations.push(state_mut);
    mutations.push(cid_mut);
    mutations.push(rid_mut);
    mutations.push(caddr_mut);
    mutations.push(raddr_mut);
    let ghost want = order_mutations(*order);
    proof {
        assert(want.len() == 6 + order.orderlines@.len());
        assert(mutations@.len() == 6);
    }
    let mut i: usize = 0;
    while i < order.orderlines.len()
        invariant
            0 <= i <= order.orderlines@.len(),
            want == order_mutations(*order),
            want.len() == 6 + order.orderlines@.len(),
            mutations@.len() == 6 + i,
            forall|j: int|
                0 <= j < mutations@.len() ==> ((#[trigger] mutations@[j]).column matches Some(
                    c,
                ) && c@ == want[j].0),
            forall|j: int|
                0 <= j < mutations@.len() ==> ((#[trigger] mutations@[j]).value matches Some(
                    v,
                ) && v@ == want[j].1),
        decreases order.orderlines@.len() - i,
    {
        let ol = order.orderlines[i];
        let idx_text = usize_to_dec(i);
        let ol_text = ol.text();
        let m = create_cell_mutation("ol", idx_text.as_str(), ol_text.as_str()).build();
        mutations.push(m);
        i = i + 1;
    }
    let rowkey = order.o_id.clone();
    let batch = BatchMutation {
        row: Some(rowkey.as_str().as_bytes_vec()),
        mutations: Some(mutations),
    };
    (batch, rowkey)
}

/// The cell of one stored text value, with a zero write timestamp.
pub fn _to_tcell(val: &str) -> (c: TCell)
    ensures
        c.value matches Some(v) && v@ == encode_utf8(val@),
        c.timestamp == Some(0i64),
{
    TCell { value: Some(val.as_bytes_vec()), timestamp: Some(0) }
}

/// The raw cells of a stored order row, identifier column included.
pub open spec fn full_row_cells(o: Order) -> Seq<(Seq<u8>, Option<Seq<u8>>)> {
    seq![
        (col_bytes("info"@, "o_id"@), Some(encode_utf8(o.o_id@))),
        (col_bytes("info"@, "o_time"@), Some(encode_utf8(o.ordertime@))),
        (col_bytes("info"@, "state"@), Some(encode_utf8(state_name(o.state)))),
        (col_bytes("ids"@, "c_id"@), Some(encode_utf8(o.c_id@))),
        (col_bytes("ids"@, "r_id"@), Some(encode_utf8(o.r_id@))),
        (col_bytes("addr"@, "c_addr"@), Some(encode_utf8(o.cust_addr@))),
        (col_bytes("addr"@, "r_addr"@), Some(encode_utf8(o.rest_addr@))),
    ] + Seq::new(
        o.orderlines@.len(),
        |i: int| (col_bytes("ol"@, dec_str(i)), Some(encode_utf8(line_text(o.orderlines@[i])))),
    )
}

/// A stored row for an order, as the store would return it: every column of
/// the order, including the identifier column, under the fixed key `"row"`.
pub fn order_to_trowresult(order: Order) -> (r: TRowResult)
    ensures
        r.row matches Some(k) && k@ == encode_utf8("row"@),
        r.columns matches Some(cols) && row_cell_data(cols@) == full_row_cells(order),
        r.sorted_columns is None,
{
    let state_text = order.state.name();
    let mut columns: Vec<(Vec<u8>, TCell)> = Vec::new();
    columns.push((col_name_bytes("info", "o_id"), _to_tcell(order.o_id.as_str())));
    columns.push((col_name_bytes("info", "o_time"), _to_tcell(order.ordertime.as_str())));
    columns.push((col_name_bytes("info", "state"), _to_tcell(state_text.as_str())));
    columns.push((col_name_bytes("ids", "c_id"), _to_tcell(order.c_id.as_str())));
    columns.push((col_name_bytes("ids", "r_id"), _to_tcell(order.r_id.as_str())));
    columns.push((col_name_bytes("addr", "c_addr"), _to_tcell(order.cust_addr.as_str())));
    columns.push((col_name_bytes("addr", "r_addr"), _to_tcell(order.rest_addr.as_str())));
    let ghost want = full_row_cells(order);
    proof {
        assert(want.len() == 7 + order.orderlines@.len());
        assert(columns@.len() == 7);
    }
    let mut i: usize = 0;
    while i < order.orderlines.len()
        invariant
            0 <= i <= order.orderlines@.len(),
            want == full_row_cells(order),
            want.len() == 7 + order.orderlines@.len(),
            columns@.len() == 7 + i,
            forall|j: int|
                0 <= j < columns@.len() ==> (#[trigger] columns@[j]).0@ == want[j].0,
            forall|j: int|
                0 <= j < columns@.len() ==> opt_bytes((#[trigger] columns@[j]).1.value)
                    == want[j].1,
        decreases order.orderlines@.len() - i,
    {
        let ol = order.orderlines[i];
        let idx_text = usize_to_dec(i);
        let ol_text = ol.text();
        columns.push((col_name_bytes("ol", idx_text.as_str()), _to_tcell(ol_text.as_str())));
        i = i + 1;
    }
    proof {
        assert(row_cell_data(columns@) =~= full_row_cells(order));
    }
    TRowResult { row: Some("row".as_bytes_vec()), columns: Some(columns), sorted_columns: None }
}

/// The raw cells of the batch an order encodes to: its mutations' column
/// and value byte pairs, as a decoder would receive them.
pub open spec fn mutation_cells(o: Order) -> Seq<(Seq<u8>, Option<Seq<u8>>)> {
    Seq::new(
        order_mutations(o).len(),
        |i: int| (order_mutations(o)[i].0, Some(order_mutations(o)[i].1)),
    )
}

/// Decoding distributes over concatenation of cell lists.
proof fn lemma_decode_cells_append(
    b: OrderBuilderView,
    c1: Seq<(Seq<u8>, Option<Seq<u8>>)>,
    c2: Seq<(Seq<u8>, Option<Seq<u8>>)>,
)
    ensures
        decode_cells(b, c1 + c2) == decode_cells(decode_cells(b, c1), c2),
    decreases c1.len(),
{
    if c1.len() == 0 {
        assert(c1 + c2 =~= c2);
    } else {
        assert((c1 + c2).drop_first() =~= c1.drop_first() + c2);
        assert((c1 + c2)[0] == c1[0]);
        lemma_decode_cells_append(apply_cell(b, c1[0].0, c1[0].1), c1.drop_first(), c2);
    }
}

/// An encoded cell parses back to its family, qualifier and text, provided
/// the family holds no `':'`.
proof fn lemma_cell_parse_encoded(f: Seq<char>, q: Seq<char>, v: Seq<char>)
    requires
        forall|i: int| 0 <= i < f.len() ==> #[trigger] f[i] != ':',
    ensures
        cell_parse(col_bytes(f, q), Some(encode_utf8(v))) == Some(((f, q), v)),
{
    let chars = f + seq![':'] + q;
    vstd::utf8::encode_utf8_valid_utf8(chars);
    vstd::utf8::encode_utf8_decode_utf8(chars);
    vstd::utf8::encode_utf8_valid_utf8(v);
    vstd::utf8::encode_utf8_decode_utf8(v);
    assert(chars[f.len() as int] == ':');
    assert(forall|i: int| 0 <= i < f.len() ==> #[trigger] chars[i] == f[i]);
    lemma_first_colon_at(chars, f.len() as int);
    assert(chars.take(f.len() as int) =~= f);
    assert(chars.skip(f.len() as int + 1) =~= q);
}

/// The schema's family and qualifier literals: no family holds a `':'`, and
/// the names a decoder tells apart are distinct.
proof fn lemma_schema_literals()
    ensures
        forall|i: int| 0 <= i < "info"@.len() ==> #[trigger] "info"@[i] != ':',
        forall|i: int| 0 <= i < "ids"@.len() ==> #[trigger] "ids"@[i] != ':',
        forall|i: int| 0 <= i < "addr"@.len() ==> #[trigger] "addr"@[i] != ':',
        forall|i: int| 0 <= i < "ol"@.len() ==> #[trigger] "ol"@[i] != ':',
        "info"@ != "ids"@ && "info"@ != "addr"@ && "info"@ != "ol"@,
        "ids"@ != "addr"@ && "ids"@ != "ol"@ && "addr"@ != "ol"@,
        "o_id"@ != "o_time"@ && "o_id"@ != "state"@ && "o_time"@ != "state"@,
        "c_id"@ != "r_id"@,
        "c_addr"@ != "r_addr"@,
{
    reveal_strlit("info");
    reveal_strlit("ids");
    reveal_strlit("addr");
    reveal_strlit("ol");
    reveal_strlit("o_id");
    reveal_strlit("o_time");
    reveal_strlit("state");
    reveal_strlit("c_id");
    reveal_strlit("r_id");
    reveal_strlit("c_addr");
    reveal_strlit("r_addr");
    assert("info"@.len() == 4);
    assert("ids"@.len() == 3);
    assert("addr"@.len() == 4);
    assert("ol"@.len() == 2);
    assert("info"@[0] == 'i' && "addr"@[0] == 'a');
    assert("o_id"@.len() == 4);
    assert("o_time"@.len() == 6);
    assert("state"@.len() == 5);
    assert("c_id"@.len() == 4 && "r_id"@.len() == 4);
    assert("c_id"@[0] == 'c' && "r_id"@[0] == 'r');
    assert("c_addr"@.len() == 6 && "r_addr"@.len() == 6);
    assert("c_addr"@[0] == 'c' && "r_addr"@[0] == 'r');
}

/// The line items denoted by a list of `ol` values: those that parse, in
/// their original relative order.
pub open spec fn parsed_lines(vals: Seq<Seq<char>>) -> Seq<Orderline>
    decreases vals.len(),
{
    if vals.len() == 0 {
        Seq::empty()
    } else {
        (match parse_orderline(vals[0]) {
            Some(l) => seq![l],
            None => Seq::empty(),
        }) + parsed_lines(vals.drop_first())
    }
}

/// Tolerant decode of line items: a list of `ol` cells appends exactly the
/// values that parse as line items, in their original relative order, and
/// touches nothing else.  A malformed value among them drops that one item
/// only.
pub proof fn lemma_ol_cells_decode(
    b: OrderBuilderView,
    qs: Seq<Seq<char>>,
    vals: Seq<Seq<char>>,
)
    requires
        qs.len() == vals.len(),
    ensures
        (decode_cells(
            b,
            Seq::new(vals.len(), |i: int| (col_bytes("ol"@, qs[i]), Some(encode_utf8(vals[i])))),
        ) == OrderBuilderView { orderlines: b.orderlines + parsed_lines(vals), ..b }),
    decreases vals.len(),
{
    lemma_schema_literals();
    let cells = Seq::new(
        vals.len(),
        |i: int| (col_bytes("ol"@, qs[i]), Some(encode_utf8(vals[i]))),
    );
    if vals.len() == 0 {
        assert(b.orderlines + parsed_lines(vals) =~= b.orderlines);
        assert(OrderBuilderView { orderlines: b.orderlines + parsed_lines(vals), ..b } =~= b);
    } else {
        lemma_cell_parse_encoded("ol"@, qs[0], vals[0]);
        let b1 = apply_cell(b, cells[0].0, cells[0].1);
        lemma_ol_cells_decode(b1, qs.drop_first(), vals.drop_first());
        assert(cells.drop_first() =~= Seq::new(
            vals.drop_first().len(),
            |i: int|
                (
                    col_bytes("ol"@, qs.drop_first()[i]),
                    Some(encode_utf8(vals.drop_first()[i])),
                ),
        ));
        match parse_orderline(vals[0]) {
            Some(l) => {
                assert(b1 =~= OrderBuilderView { orderlines: b.orderlines.push(l), ..b });
                assert(b.orderlines.push(l) + parsed_lines(vals.drop_first()) =~= b.orderlines
                    + parsed_lines(vals));
            },
            None => {
                assert(b1 =~= b);
                assert(parsed_lines(vals.drop_first()) =~= parsed_lines(vals));
            },
        }
    }
}

/// All-valid line texts parse back to the line items themselves.
proof fn lemma_parsed_line_texts(ls: Seq<Orderline>)
    ensures
        parsed_lines(Seq::new(ls.len(), |i: int| line_text(ls[i]))) == ls,
    decreases ls.len(),
{
    let texts = Seq::new(ls.len(), |i: int| line_text(ls[i]));
    if ls.len() == 0 {
        assert(parsed_lines(texts) =~= ls);
    } else {
        crate::orders::lemma_orderline_round_trip(ls[0]);
        lemma_parsed_line_texts(ls.drop_first());
        assert(texts.drop_first() =~= Seq::new(
            ls.drop_first().len(),
            |i: int| line_text(ls.drop_first()[i]),
        ));
        assert(seq![ls[0]] + ls.drop_first() =~= ls);
    }
}

/// Decoding the cells an order's mutations encode, from any starting
/// builder: the six scalar content fields are set, the line items are
/// appended in order, and the identifier field is untouched.
#[verifier::rlimit(100)]
proof fn lemma_content_cells_decode(b: OrderBuilderView, o: Order)
    ensures
        (decode_cells(b, mutation_cells(o)) == OrderBuilderView {
            ordertime: Some(o.ordertime@),
            state: Some(state_name(o.state)),
            c_id: Some(o.c_id@),
            r_id: Some(o.r_id@),
            cust_addr: Some(o.cust_addr@),
            rest_addr: Some(o.rest_addr@),
            orderlines: b.orderlines + o.orderlines@,
            ..b
        }),
{
    lemma_schema_literals();
    let cells = mutation_cells(o);
    let scalars = cells.take(6);
    let lines = cells.skip(6);
    assert(cells =~= scalars + lines);
    lemma_decode_cells_append(b, scalars, lines);

    let c0 = (col_bytes("info"@, "o_time"@), Some(encode_utf8(o.ordertime@)));
    let c1 = (col_bytes("info"@, "state"@), Some(encode_utf8(state_name(o.state))));
    let c2 = (col_bytes("ids"@, "c_id"@), Some(encode_utf8(o.c_id@)));
    let c3 = (col_bytes("ids"@, "r_id"@), Some(encode_utf8(o.r_id@)));
    let c4 = (col_bytes("addr"@, "c_addr"@), Some(encode_utf8(o.cust_addr@)));
    let c5 = (col_bytes("addr"@, "r_addr"@), Some(encode_utf8(o.rest_addr@)));
    assert(scalars =~= seq![c0, c1, c2, c3, c4, c5]);
    lemma_cell_parse_encoded("info"@, "o_time"@, o.ordertime@);
    lemma_cell_parse_encoded("info"@, "state"@, state_name(o.state));
    lemma_cell_parse_encoded("ids"@, "c_id"@, o.c_id@);
    lemma_cell_parse_encoded("ids"@, "r_id"@, o.r_id@);
    lemma_cell_parse_encoded("addr"@, "c_addr"@, o.cust_addr@);
    lemma_cell_parse_encoded("addr"@, "r_addr"@, o.rest_addr@);

    let b1 = apply_cell(b, c0.0, c0.1);
    let b2 = apply_cell(b1, c1.0, c1.1);
    let b3 = apply_cell(b2, c2.0, c2.1);
    let b4 = apply_cell(b3, c3.0, c3.1);
    let b5 = apply_cell(b4, c4.0, c4.1);
    let b6 = apply_cell(b5, c5.0, c5.1);
    assert(seq![c0, c1, c2, c3, c4, c5].drop_first() =~= seq![c1, c2, c3, c4, c5]);
    assert(seq![c1, c2, c3, c4, c5].drop_first() =~= seq![c2, c3, c4, c5]);
    assert(seq![c2, c3, c4, c5].drop_first() =~= seq![c3, c4, c5]);
    assert(seq![c3, c4, c5].drop_first() =~= seq![c4, c5]);
    assert(seq![c4, c5].drop_first() =~= seq![c5]);
    assert(seq![c5].drop_first() =~= Seq::<(Seq<u8>, Option<Seq<u8>>)>::empty());
    assert(decode_cells(b, scalars) == decode_cells(b1, seq![c1, c2, c3, c4, c5]));
    assert(decode_cells(b1, seq![c1, c2, c3, c4, c5]) == decode_cells(b2, seq![c2, c3, c4, c5]));
    assert(decode_cells(b2, seq![c2, c3, c4, c5]) == decode_cells(b3, seq![c3, c4, c5]));
    assert(decode_cells(b3, seq![c3, c4, c5]) == decode_cells(b4, seq![c4, c5]));
    assert(decode_cells(b4, seq![c4, c5]) == decode_cells(b5, seq![c5]));
    assert(decode_cells(b5, seq![c5]) == decode_cells(
        b6,
        Seq::<(Seq<u8>, Option<Seq<u8>>)>::empty(),
    ));
    assert(decode_cells(b, scalars) == b6);
    assert(b6 == OrderBuilderView {
        ordertime: Some(o.ordertime@),
        state: Some(state_name(o.state)),
        c_id: Some(o.c_id@),
        r_id: Some(o.r_id@),
        cust_addr: Some(o.cust_addr@),
        rest_addr: Some(o.rest_addr@),
        ..b
    });

    let n = o.orderlines@.len();
    let qs = Seq::new(n, |i: int| crate::text::dec_str(i));
    let texts = Seq::new(n, |i: int| line_text(o.orderlines@[i]));
    lemma_ol_cells_decode(b6, qs, texts);
    assert(lines =~= Seq::new(
        texts.len(),
        |i: int| (col_bytes("ol"@, qs[i]), Some(encode_utf8(texts[i]))),
    ));
    lemma_parsed_line_texts(o.orderlines@);
    assert(decode_cells(b, cells) == OrderBuilderView {
        orderlines: b6.orderlines + parsed_lines(texts),
        ..b6
    });
    assert(b6.orderlines + parsed_lines(texts) =~= b.orderlines + o.orderlines@);
}

/// Round trip: decoding the cells that `create_mutation_from_order` encodes
/// rebuilds every field of the order except the identifier, which is never
/// stored as a value column; supplying it as the row key completes the
/// builder to exactly the original order.
pub proof fn lemma_encode_decode_round_trip(o: Order)
    ensures
        (decode_cells(OrderBuilderView::empty(), mutation_cells(o)).o_id is None),
        (order_of_builder(
            OrderBuilderView {
                o_id: Some(o.o_id@),
                ..decode_cells(OrderBuilderView::empty(), mutation_cells(o))
            },
        ) == Some(o@)),
{
    lemma_content_cells_decode(OrderBuilderView::empty(), o);
    let bf = decode_cells(OrderBuilderView::empty(), mutation_cells(o));
    assert(bf.orderlines =~= o.orderlines@);
    crate::orders::lemma_state_name_round_trip(o.state);
    let done = OrderBuilderView { o_id: Some(o.o_id@), ..bf };
    assert(done.complete());
    assert(order_of_builder(done)->0 =~= o@);
}

/// Round trip through the store: decoding the raw cells of a stored order
/// row, identifier column included, rebuilds exactly the original order.
pub proof fn lemma_stored_row_round_trip(o: Order)
    ensures
        (order_of_builder(decode_cells(OrderBuilderView::empty(), full_row_cells(o))) == Some(
            o@,
        )),
{
    lemma_schema_literals();
    let b0 = OrderBuilderView::empty();
    let head = (col_bytes("info"@, "o_id"@), Some(encode_utf8(o.o_id@)));
    let rest = mutation_cells(o);
    let cells = full_row_cells(o);
    assert(cells =~= seq![head] + rest);
    lemma_decode_cells_append(b0, seq![head], rest);
    lemma_cell_parse_encoded("info"@, "o_id"@, o.o_id@);
    assert(seq![head].drop_first() =~= Seq::<(Seq<u8>, Option<Seq<u8>>)>::empty());
    let b1 = apply_cell(b0, head.0, head.1);
    assert(seq![head][0] == head);
    assert(decode_cells(b0, seq![head]) == decode_cells(b1, seq![head].drop_first()));
    assert(decode_cells(b1, Seq::<(Seq<u8>, Option<Seq<u8>>)>::empty()) == b1);
    assert(decode_cells(b0, seq![head]) == b1);
    assert(b1 == OrderBuilderView { o_id: Some(o.o_id@), ..b0 });
    lemma_content_cells_decode(b1, o);
    let bf = decode_cells(b0, cells);
    assert(bf.orderlines =~= o.orderlines@);
    crate::orders::lemma_state_name_round_trip(o.state);
    assert(bf.complete());
    assert(order_of_builder(bf)->0 =~= o@);
}

/// Whether a raw cell names the column `family:qualifier`.
pub open spec fn cell_names(
    col: Seq<u8>,
    val: Option<Seq<u8>>,
    f: Seq<char>,
    q: Seq<char>,
) -> bool {
    cell_parse(col, val) matches Some(((cf, cq), _)) && cf == f && cq == q
}

/// The builder field stored under a scalar column of the schema.
pub open spec fn scalar_field(b: OrderBuilderView, f: Seq<char>, q: Seq<char>) -> Option<
    Seq<char>,
> {
    if f == "info"@ && q == "o_id"@ {
        b.o_id
    } else if f == "info"@ && q == "o_time"@ {
        b.ordertime
    } else if f == "info"@ && q == "state"@ {
        b.state
    } else if f == "ids"@ && q == "c_id"@ {
        b.c_id
    } else if f == "ids"@ && q == "r_id"@ {
        b.r_id
    } else if f == "addr"@ && q == "c_addr"@ {
        b.cust_addr
    } else if f == "addr"@ && q == "r_addr"@ {
        b.rest_addr
    } else {
        None
    }
}

/// One of the seven scalar columns an order needs.
pub open spec fn is_required_scalar(f: Seq<char>, q: Seq<char>) -> bool {
    ||| f == "info"@ && q == "o_id"@
    ||| f == "info"@ && q == "o_time"@
    ||| f == "info"@ && q == "state"@
    ||| f == "ids"@ && q == "c_id"@
    ||| f == "ids"@ && q == "r_id"@
    ||| f == "addr"@ && q == "c_addr"@
    ||| f == "addr"@ && q == "r_addr"@
}

/// Decoding cells that never name a scalar column leaves that column's
/// builder field as it was.
proof fn lemma_decode_preserves_missing(
    b: OrderBuilderView,
    cells: Seq<(Seq<u8>, Option<Seq<u8>>)>,
    f: Seq<char>,
    q: Seq<char>,
)
    requires
        is_required_scalar(f, q),
        forall|i: int|
            0 <= i < cells.len() ==> !cell_names(
                (#[trigger] cells[i]).0,
                cells[i].1,
                f,
                q,
            ),
    ensures
        scalar_field(decode_cells(b, cells), f, q) == scalar_field(b, f, q),
    decreases cells.len(),
{
    if cells.len() > 0 {
        let b1 = apply_cell(b, cells[0].0, cells[0].1);
        assert(scalar_field(b1, f, q) == scalar_field(b, f, q));
        lemma_decode_preserves_missing(b1, cells.drop_first(), f, q);
    }
}

/// Tolerant decode, missing field: a cell list in which no cell names some
/// required scalar column decodes to a builder from which no order can be
/// built.
pub proof fn lemma_missing_field_builds_nothing(
    cells: Seq<(Seq<u8>, Option<Seq<u8>>)>,
    f: Seq<char>,
    q: Seq<char>,
)
    requires
        is_required_scalar(f, q),
        forall|i: int|
            0 <= i < cells.len() ==> !cell_names(
                (#[trigger] cells[i]).0,
                cells[i].1,
                f,
                q,
            ),
    ensures
        order_of_builder(decode_cells(OrderBuilderView::empty(), cells)) is None,
{
    lemma_schema_literals();
    lemma_decode_preserves_missing(OrderBuilderView::empty(), cells, f, q);
}

/// The store's server-side equality filter expression on one column.
pub open spec fn single_column_filter(
    colfam: Seq<char>,
    col: Seq<char>,
    op: Seq<char>,
    value: Seq<char>,
) -> Seq<char> {
    "SingleColumnValueFilter('"@ + colfam + "', '"@ + col + "', "@ + op + ", 'binaryprefix:"@
        + value + "')"@
}

/// Render the server-side single-column filter expression.
pub fn build_single_column_filter(colfam: &str, col: &str, operator: &str, value: &str) -> (r:
    String)
    ensures
        r@ == single_column_filter(colfam@, col@, operator@, value@),
{
    let mut s = "SingleColumnValueFilter('".to_owned();
    s.append(colfam);
    s.append("', '");
    s.append(col);
    s.append("', ");
    s.append(operator);
    s.append(", 'binaryprefix:");
    s.append(value);
    s.append("')");
    proof {
        assert(s@ =~= single_column_filter(colfam@, col@, operator@, value@));
    }
    s
}

/// A full-table scan over the named columns with an equality filter on one
/// column, and no row bounds, batching, sorting or caching.
pub fn create_scan(
    columns_to_fetch: Vec<Vec<u8>>,
    filter_colfam: &str,
    filter_col: &str,
    filter_val: &str,
) -> (r: TScan)
    ensures
        r.columns == Some(columns_to_fetch),
        r.filter_string matches Some(fs) && fs@ == encode_utf8(
            single_column_filter(filter_colfam@, filter_col@, "="@, filter_val@),
        ),
        r.start_row is None,
        r.stop_row is None,
        r.timestamp is None,
        r.caching is None,
        r.batch_size == Some(0i32),
        r.sort_columns == Some(false),
        r.reversed == Some(false),
        r.cache_blocks == Some(false),
{
    let filter = build_single_column_filter(filter_colfam, filter_col, "=", filter_val);
    TScan {
        start_row: None,
        stop_row: None,
        timestamp: None,
        columns: Some(columns_to_fetch),
        caching: None,
        filter_string: Some(filter.as_str().as_bytes_vec()),
        batch_size: Some(0),
        sort_columns: Some(false),
        reversed: Some(false),
        cache_blocks: Some(false),
    }
}

/// The scan that finds one owner's orders: it fetches exactly the five
/// columns a summary needs — no addresses, no line items — and filters
/// server-side on equality of the `ids:c_id` column with the owner's id.
pub fn owner_scan(user_id: &str) -> (r: TScan)
    ensures
        r.columns matches Some(cols) && {
            &&& cols@.len() == 5
            &&& cols@[0]@ == col_bytes("info"@, "o_id"@)
            &&& cols@[1]@ == col_bytes("info"@, "o_time"@)
            &&& cols@[2]@ == col_bytes("info"@, "state"@)
            &&& cols@[3]@ == col_bytes("ids"@, "r_id"@)
            &&& cols@[4]@ == col_bytes("ids"@, "c_id"@)
        },
        r.filter_string matches Some(fs) && fs@ == encode_utf8(
            single_column_filter("ids"@, "c_id"@, "="@, user_id@),
        ),
        r.start_row is None,
        r.stop_row is None,
        r.timestamp is None,
        r.caching is None,
        r.batch_size == Some(0i32),
        r.sort_columns == Some(false),
        r.reversed == Some(false),
        r.cache_blocks == Some(false),
{
    let mut columns: Vec<Vec<u8>> = Vec::new();
    columns.push(col_name_bytes("info", "o_id"));
    columns.push(col_name_bytes("info", "o_time"));
    columns.push(col_name_bytes("info", "state"));
    columns.push(col_name_bytes("ids", "r_id"));
    columns.push(col_name_bytes("ids", "c_id"));
    create_scan(columns, "ids", "c_id", user_id)
}

} // verus!
