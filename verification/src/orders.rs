//! The order domain model: the `Order` entity, its summary projection, the
//! tolerant field-by-field builder, the lifecycle state, and deterministic
//! row-key derivation.

use rand::Rng;
use sha2::Digest;
use vstd::arithmetic::power2::pow2;
use vstd::prelude::*;
use vstd::string::StrSliceExecFns;
use vstd::string::StringExecFns;
use vstd::utf8::encode_utf8;

use crate::text::dec_str;
use crate::text::first_colon_idx;
use crate::text::lemma_dec_str_digits;
use crate::text::lemma_first_colon_at;
use crate::text::lemma_parse_dec_str;
use crate::text::parse_u32;
use crate::text::parse_u32_spec;
use crate::text::str_eq;
use crate::text::u32_to_dec;

verus! {

broadcast use vstd::string::group_string_axioms;

/// A request to create an order, before the service assigns id, time and
/// state.
#[derive(Debug, Clone)]
pub struct CreateOrder {
    pub c_id: String,
    pub r_id: String,
    pub cust_addr: String,
    pub rest_addr: String,
    pub orderlines: Vec<Orderline>,
}

/// The projection of an order returned by bulk queries: no line items and no
/// addresses.
#[derive(Debug, Clone)]
pub struct OrderInfo {
    pub o_id: String,
    pub ordertime: String,
    pub state: OrderState,
    pub r_id: String,
    pub c_id: String,
}

/// The order entity as persisted: `o_id` is the row key.
#[derive(Debug, Clone)]
pub struct Order {
    pub o_id: String,
    pub c_id: String,
    pub r_id: String,
    pub ordertime: String,
    pub orderlines: Vec<Orderline>,
    pub state: OrderState,
    pub cust_addr: String,
    pub rest_addr: String,
}

/// One line of an order: an item number and a price in the smallest currency
/// unit.  Its stored text form is `"item_num:price"`.
#[derive(Debug, Clone, Copy, PartialEq, Eq, Structural)]
pub struct Orderline {
    pub item_num: u32,
    pub price: u32,
}

/// Accumulates decoded columns; `Order::build` succeeds only once every
/// scalar field has been seen.  The line-item list grows as `ol:*` columns
/// arrive and may legitimately stay empty.
#[derive(Debug, Clone)]
pub struct OrderBuilder {
    pub o_id: Option<String>,
    pub c_id: Option<String>,
    pub r_id: Option<String>,
    pub ordertime: Option<String>,
    pub state: Option<String>,
    pub cust_addr: Option<String>,
    pub rest_addr: Option<String>,
    pub orderlines: Vec<Orderline>,
}

/// Lifecycle state of an order; this layer treats it as opaque data and
/// enforces no transitions.
#[derive(Debug, Clone, Copy, PartialEq, Eq, Structural)]
pub enum OrderState {
    Processing,
    Pending,
    Rejected,
    Accepted,
    ReadyForPickup,
    OutForDelivery,
    Delivered,
}

/// Mathematical image of an `Order`.
#[verifier::ext_equal]
pub ghost struct OrderView {
    pub o_id: Seq<char>,
    pub c_id: Seq<char>,
    pub r_id: Seq<char>,
    pub ordertime: Seq<char>,
    pub orderlines: Seq<Orderline>,
    pub state: OrderState,
    pub cust_addr: Seq<char>,
    pub rest_addr: Seq<char>,
}

/// Mathematical image of an `OrderInfo`.
#[verifier::ext_equal]
pub ghost struct OrderInfoView {
    pub o_id: Seq<char>,
    pub ordertime: Seq<char>,
    pub state: OrderState,
    pub r_id: Seq<char>,
    pub c_id: Seq<char>,
}

/// Mathematical image of an `OrderBuilder`.
#[verifier::ext_equal]
pub ghost struct OrderBuilderView {
    pub o_id: Option<Seq<char>>,
    pub c_id: Option<Seq<char>>,
    pub r_id: Option<Seq<char>>,
    pub ordertime: Option<Seq<char>>,
    pub state: Option<Seq<char>>,
    pub cust_addr: Option<Seq<char>>,
    pub rest_addr: Option<Seq<char>>,
    pub orderlines: Seq<Orderline>,
}

impl OrderBuilderView {
    /// The builder before any column was decoded.
    pub open spec fn empty() -> OrderBuilderView {
        OrderBuilderView {
            o_id: None,
            c_id: None,
            r_id: None,
            ordertime: None,
            state: None,
            cust_addr: None,
            rest_addr: None,
            orderlines: Seq::empty(),
        }
    }

    /// All scalar fields present and the state text names a state.
    pub open spec fn complete(self) -> bool {
        &&& self.o_id is Some
        &&& self.c_id is Some
        &&& self.r_id is Some
        &&& self.ordertime is Some
        &&& self.state is Some
        &&& self.cust_addr is Some
        &&& self.rest_addr is Some
        &&& parse_state(self.state->0) is Some
    }
}

/// The order a complete builder finalizes to, if it is complete.
pub open spec fn order_of_builder(b: OrderBuilderView) -> Option<OrderView> {
    if b.complete() {
        Some(
            OrderView {
                o_id: b.o_id->0,
                c_id: b.c_id->0,
                r_id: b.r_id->0,
                ordertime: b.ordertime->0,
                orderlines: b.orderlines,
                state: parse_state(b.state->0)->0,
                cust_addr: b.cust_addr->0,
                rest_addr: b.rest_addr->0,
            },
        )
    } else {
        None
    }
}

/// The summary a builder finalizes to: the addresses and line items are not
/// needed, the other fields are.
pub open spec fn info_of_builder(b: OrderBuilderView) -> Option<OrderInfoView> {
    if b.o_id is Some && b.r_id is Some && b.c_id is Some && b.ordertime is Some && b.state is Some
        && parse_state(b.state->0) is Some {
        Some(
            OrderInfoView {
                o_id: b.o_id->0,
                ordertime: b.ordertime->0,
                state: parse_state(b.state->0)->0,
                r_id: b.r_id->0,
                c_id: b.c_id->0,
            },
        )
    } else {
        None
    }
}

/// The view of an optional string field.
pub open spec fn opt_view(o: Option<String>) -> Option<Seq<char>> {
    match o {
        Some(s) => Some(s@),
        None => None,
    }
}

impl View for Order {
    type V = OrderView;

    open spec fn view(&self) -> OrderView {
        OrderView {
            o_id: self.o_id@,
            c_id: self.c_id@,
            r_id: self.r_id@,
            ordertime: self.ordertime@,
            orderlines: self.orderlines@,
            state: self.state,
            cust_addr: self.cust_addr@,
            rest_addr: self.rest_addr@,
        }
    }
}

impl View for OrderInfo {
    type V = OrderInfoView;

    open spec fn view(&self) -> OrderInfoView {
        OrderInfoView {
            o_id: self.o_id@,
            ordertime: self.ordertime@,
            state: self.state,
            r_id: self.r_id@,
            c_id: self.c_id@,
        }
    }
}

impl View for OrderBuilder {
    type V = OrderBuilderView;

    open spec fn view(&self) -> OrderBuilderView {
        OrderBuilderView {
            o_id: opt_view(self.o_id),
            c_id: opt_view(self.c_id),
            r_id: opt_view(self.r_id),
            ordertime: opt_view(self.ordertime),
            state: opt_view(self.state),
            cust_addr: opt_view(self.cust_addr),
            rest_addr: opt_view(self.rest_addr),
            orderlines: self.orderlines@,
        }
    }
}

impl Default for OrderBuilder {
    /// The builder with no field observed yet.
    fn default() -> (b: OrderBuilder)
        ensures
            b@ == OrderBuilderView::empty(),
    {
        let b = OrderBuilder {
            o_id: None,
            c_id: None,
            r_id: None,
            ordertime: None,
            state: None,
            cust_addr: None,
            rest_addr: None,
            orderlines: Vec::new(),
        };
        proof {
            assert(b@.orderlines =~= Seq::<Orderline>::empty());
        }
        b
    }
}

/// The stored text name of a state.
pub open spec fn state_name(s: OrderState) -> Seq<char> {
    match s {
        OrderState::Processing => "Processing"@,
        OrderState::Pending => "Pending"@,
        OrderState::Rejected => "Rejected"@,
        OrderState::Accepted => "Accepted"@,
        OrderState::ReadyForPickup => "ReadyForPickup"@,
        OrderState::OutForDelivery => "OutForDelivery"@,
        OrderState::Delivered => "Delivered"@,
    }
}

/// The state a stored text names, if any.
pub open spec fn parse_state(s: Seq<char>) -> Option<OrderState> {
    if s == "Processing"@ {
        Some(OrderState::Processing)
    } else if s == "Pending"@ {
        Some(OrderState::Pending)
    } else if s == "Rejected"@ {
        Some(OrderState::Rejected)
    } else if s == "Accepted"@ {
        Some(OrderState::Accepted)
    } else if s == "ReadyForPickup"@ {
        Some(OrderState::ReadyForPickup)
    } else if s == "OutForDelivery"@ {
        Some(OrderState::OutForDelivery)
    } else if s == "Delivered"@ {
        Some(OrderState::Delivered)
    } else {
        None
    }
}

/// Each state's name parses back to that state.
pub proof fn lemma_state_name_round_trip(s: OrderState)
    ensures
        parse_state(state_name(s)) == Some(s),
{
    reveal_strlit("Processing");
    reveal_strlit("Pending");
    reveal_strlit("Rejected");
    reveal_strlit("Accepted");
    reveal_strlit("ReadyForPickup");
    reveal_strlit("OutForDelivery");
    reveal_strlit("Delivered");
    assert("Processing"@.len() == 10);
    assert("Pending"@.len() == 7);
    assert("Rejected"@.len() == 8);
    assert("Accepted"@.len() == 8);
    assert("ReadyForPickup"@.len() == 14);
    assert("OutForDelivery"@.len() == 14);
    assert("Delivered"@.len() == 9);
    assert("Accepted"@[0] == 'A' && "Rejected"@[0] == 'R');
    assert("ReadyForPickup"@[0] == 'R' && "OutForDelivery"@[0] == 'O');
    match s {
        OrderState::Processing => {
            assert(parse_state(state_name(s)) == Some(s));
        },
        OrderState::Pending => {
            assert(parse_state(state_name(s)) == Some(s));
        },
        OrderState::Rejected => {
            assert(parse_state(state_name(s)) == Some(s));
        },
        OrderState::Accepted => {
            assert(parse_state(state_name(s)) == Some(s));
        },
        OrderState::ReadyForPickup => {
            assert(parse_state(state_name(s)) == Some(s));
        },
        OrderState::OutForDelivery => {
            assert(parse_state(state_name(s)) == Some(s));
        },
        OrderState::Delivered => {
            assert(parse_state(state_name(s)) == Some(s));
        },
    }
}

impl OrderState {
    /// The stored text name of this state.
    pub fn name(&self) -> (r: String)
        ensures
            r@ == state_name(*self),
    {
        match self {
            OrderState::Processing => "Processing".to_owned(),
            OrderState::Pending => "Pending".to_owned(),
            OrderState::Rejected => "Rejected".to_owned(),
            OrderState::Accepted => "Accepted".to_owned(),
            OrderState::ReadyForPickup => "ReadyForPickup".to_owned(),
            OrderState::OutForDelivery => "OutForDelivery".to_owned(),
            OrderState::Delivered => "Delivered".to_owned(),
        }
    }

    /// Parse a stored state name; errs on any other text.
    pub fn from_str(input: &str) -> (r: Result<OrderState, ()>)
        ensures
            r == match parse_state(input@) {
                Some(s) => Ok::<OrderState, ()>(s),
                None => Err::<OrderState, ()>(()),
            },
    {
        if str_eq(input, "Processing") {
            Ok(OrderState::Processing)
        } else if str_eq(input, "Pending") {
            Ok(OrderState::Pending)
        } else if str_eq(input, "Rejected") {
            Ok(OrderState::Rejected)
        } else if str_eq(input, "Accepted") {
            Ok(OrderState::Accepted)
        } else if str_eq(input, "ReadyForPickup") {
            Ok(OrderState::ReadyForPickup)
        } else if str_eq(input, "OutForDelivery") {
            Ok(OrderState::OutForDelivery)
        } else if str_eq(input, "Delivered") {
            Ok(OrderState::Delivered)
        } else {
            Err(())
        }
    }
}

/// The stored text form of a line item: `"item_num:price"` in decimal.
pub open spec fn line_text(l: Orderline) -> Seq<char> {
    dec_str(l.item_num as int) + seq![':'] + dec_str(l.price as int)
}

/// The line item a stored text denotes: the part before the first `':'` is
/// the item number, the part after it the price, both decimal `u32`s.
pub open spec fn parse_orderline(s: Seq<char>) -> Option<Orderline> {
    let k = first_colon_idx(s);
    if k < 0 {
        None
    } else {
        match (parse_u32_spec(s.take(k)), parse_u32_spec(s.skip(k + 1))) {
            (Some(item), Some(price)) => Some(Orderline { item_num: item, price: price }),
            _ => None,
        }
    }
}

/// A line item's text form parses back to the same line item.
pub proof fn lemma_orderline_round_trip(l: Orderline)
    ensures
        parse_orderline(line_text(l)) == Some(l),
{
    let a = dec_str(l.item_num as int);
    let b = dec_str(l.price as int);
    let s = line_text(l);
    lemma_dec_str_digits(l.item_num as int);
    lemma_dec_str_digits(l.price as int);
    assert(forall|i: int| 0 <= i < a.len() ==> #[trigger] s[i] == a[i]);
    assert(forall|i: int| 0 <= i < a.len() ==> s[i] != ':');
    assert(s[a.len() as int] == ':');
    lemma_first_colon_at(s, a.len() as int);
    assert(s.take(a.len() as int) =~= a);
    assert(s.skip(a.len() as int + 1) =~= b);
    lemma_parse_dec_str(l.item_num);
    lemma_parse_dec_str(l.price);
}

impl Orderline {
    /// The stored text form of this line item.
    pub fn text(&self) -> (r: String)
        ensures
            r@ == line_text(*self),
    {
        let mut s = u32_to_dec(self.item_num);
        s.append(":");
        let price = u32_to_dec(self.price);
        s.append(price.as_str());
        proof {
            reveal_strlit(":");
            assert(":"@ =~= seq![':']);
        }
        s
    }

    /// Parse the stored text form of a line item; errs on malformed text.
    pub fn from_str(s: &str) -> (r: Result<Orderline, ()>)
        ensures
            r == match parse_orderline(s@) {
                Some(l) => Ok::<Orderline, ()>(l),
                None => Err::<Orderline, ()>(()),
            },
    {
        let len = s.unicode_len();
        let mut i: usize = 0;
        while i < len
            invariant
                len == s@.len(),
                0 <= i <= len,
                forall|j: int| 0 <= j < i ==> #[trigger] s@[j] != ':',
            decreases len - i,
        {
            if s.get_char(i) == ':' {
                proof {
                    lemma_first_colon_at(s@, i as int);
                }
                let item_part = s.substring_char(0, i);
                let price_part = s.substring_char(i + 1, len);
                proof {
                    assert(item_part@ =~= s@.take(i as int));
                    assert(price_part@ =~= s@.skip(i as int + 1));
                }
                let item = match parse_u32(item_part) {
                    Some(v) => v,
                    None => {
                        return Err(());
                    },
                };
                let price = match parse_u32(price_part) {
                    Some(v) => v,
                    None => {
                        return Err(());
                    },
                };
                return Ok(Orderline { item_num: item, price: price });
            }
            i = i + 1;
        }
        proof {
            crate::text::lemma_first_colon_none(s@);
        }
        Err(())
    }
}

/// A 32-bit value wrapped into range, as a doubling `u32` weight wraps.
pub open spec fn wrap32(x: int) -> int {
    if x > 0xffff_ffff {
        x - 0x1_0000_0000
    } else {
        x
    }
}

/// The digest fold, from `acc` with weight `mul`: each byte contributes its
/// least-significant bit times the weight, and the weight doubles (wrapping
/// at 32 bits) per byte.
pub open spec fn lsb_fold(bytes: Seq<u8>, acc: int, mul: int) -> int
    decreases bytes.len(),
{
    if bytes.len() == 0 {
        acc
    } else {
        lsb_fold(bytes.drop_first(), acc + mul * ((bytes[0] & 1) as int), wrap32(mul * 2))
    }
}

/// A digest folded into 32 bits.  This deliberately weak, fast mix keeps row
/// keys compact; it is kept exactly as stored keys depend on it.
pub open spec fn fold_digest(bytes: Seq<u8>) -> int {
    lsb_fold(bytes, 0, 1)
}

/// Fold a digest into a `u32` by the least-significant-bit mix.
pub fn to_u32(slice: &[u8]) -> (r: u32)
    ensures
        r as int == fold_digest(slice@),
{
    let n = slice.len();
    let mut acc: u32 = 0;
    let mut mul: u32 = 1;
    let mut i: usize = 0;
    proof {
        vstd::arithmetic::power2::lemma2_to64();
        assert(slice@.skip(0) =~= slice@);
    }
    while i < n
        invariant
            n == slice@.len(),
            0 <= i <= n,
            i < 32 ==> mul as int == pow2(i as nat) && (acc as int) < pow2(i as nat),
            i >= 32 ==> mul == 0,
            acc <= 0xffff_ffff,
            lsb_fold(slice@.skip(i as int), acc as int, mul as int) == fold_digest(slice@),
        decreases n - i,
    {
        let byte = *vstd::slice::slice_index_get(slice, i);
        let bit: u32 = 1 & byte as u32;
        proof {
            vstd::arithmetic::power2::lemma2_to64();
            assert(1 & (byte as u32) == (byte & 1) as u32) by (bit_vector);
            assert(1 & (byte as u32) <= 1) by (bit_vector);
            if bit == 0 {
                assert(mul as int * bit as int == 0);
            } else {
                assert(mul as int * bit as int == mul as int);
            }
            if i < 32 {
                vstd::arithmetic::power2::lemma_pow2_unfold((i + 1) as nat);
                if i + 1 < 32 {
                    vstd::arithmetic::power2::lemma_pow2_strictly_increases(
                        (i + 1) as nat,
                        32nat,
                    );
                }
            }
            assert(slice@.skip(i as int).drop_first() =~= slice@.skip(i as int + 1));
        }
        acc = acc + mul * bit;
        mul = mul.wrapping_add(mul);
        i = i + 1;
    }
    proof {
        assert(slice@.skip(n as int) =~= Seq::<u8>::empty());
    }
    acc
}

/// What SHA-256 yields on a byte sequence; a function of the bytes alone.
pub uninterp spec fn sha256_of(bytes: Seq<u8>) -> Seq<u8>;

/// The byte drawn from a PCG-64 generator seeded from a text seed; a function
/// of the seed alone.
pub uninterp spec fn salt_byte_of(seed: Seq<char>) -> u8;

/// Relies on sha2's `Sha256::digest`: a 32-byte digest that depends on the
/// input bytes alone.
#[verifier::external_body]
fn sha256_digest(bytes: &Vec<u8>) -> (r: Vec<u8>)
    ensures
        r@ == sha256_of(bytes@),
        r@.len() == 32,
{
    sha2::Sha256::digest(bytes.as_slice()).to_vec()
}

/// Relies on rand_seeder's `Seeder`, rand_pcg's `Pcg64` and rand's
/// `Rng::gen`: the generator state, and so the byte drawn from it, is a
/// function of the seed text alone.
#[verifier::external_body]
fn salt_byte(seed: &str) -> (r: u8)
    ensures
        r == salt_byte_of(seed@),
{
    let mut rng: rand_pcg::Pcg64 = rand_seeder::Seeder::from(seed).make_rng();
    rng.gen::<u8>()
}

/// Relies on chrono's `Utc::now` and `to_rfc3339`: a wall-clock read, so of
/// the text only what every RFC 3339 rendering satisfies is promised — it
/// is never empty.
#[verifier::external_body]
fn now_rfc3339() -> (r: String)
    ensures
        r@.len() > 0,
{
    chrono::Utc::now().to_rfc3339()
}

/// The bytes the content digest covers: customer id, restaurant id, timestamp
/// and each line item's text form, in order, as UTF-8.
pub open spec fn lines_bytes(lines: Seq<Orderline>) -> Seq<u8>
    decreases lines.len(),
{
    if lines.len() == 0 {
        Seq::empty()
    } else {
        lines_bytes(lines.drop_last()) + encode_utf8(line_text(lines.last()))
    }
}

pub open spec fn content_bytes(
    c_id: Seq<char>,
    r_id: Seq<char>,
    ordertime: Seq<char>,
    lines: Seq<Orderline>,
) -> Seq<u8> {
    encode_utf8(c_id) + encode_utf8(r_id) + encode_utf8(ordertime) + lines_bytes(lines)
}

/// The fixed head of the digest input: the three scalar texts as UTF-8.
fn content_prefix(c_id: &str, r_id: &str, ordertime: &str) -> (r: Vec<u8>)
    ensures
        r@ == encode_utf8(c_id@) + encode_utf8(r_id@) + encode_utf8(ordertime@),
{
    let mut data = c_id.as_bytes_vec();
    let mut r_part = r_id.as_bytes_vec();
    data.append(&mut r_part);
    let mut t_part = ordertime.as_bytes_vec();
    data.append(&mut t_part);
    data
}

/// The derived row key: the salt drawn from the restaurant id, then the
/// folded content digest, both in decimal, with no separator.
pub open spec fn spec_row_key(
    c_id: Seq<char>,
    r_id: Seq<char>,
    ordertime: Seq<char>,
    lines: Seq<Orderline>,
) -> Seq<char> {
    dec_str(salt_byte_of(r_id) as int) + dec_str(
        fold_digest(sha256_of(content_bytes(c_id, r_id, ordertime, lines))),
    )
}

/// Key derivation is deterministic: two derivations from equal inputs yield
/// the same row key, however far apart they run.
pub proof fn lemma_row_key_deterministic(
    c_id1: Seq<char>,
    r_id1: Seq<char>,
    ordertime1: Seq<char>,
    lines1: Seq<Orderline>,
    c_id2: Seq<char>,
    r_id2: Seq<char>,
    ordertime2: Seq<char>,
    lines2: Seq<Orderline>,
)
    requires
        c_id1 == c_id2,
        r_id1 == r_id2,
        ordertime1 == ordertime2,
        lines1 == lines2,
    ensures
        spec_row_key(c_id1, r_id1, ordertime1, lines1) == spec_row_key(
            c_id2,
            r_id2,
            ordertime2,
            lines2,
        ),
{
}

/// The row key starts with the salt drawn from the restaurant id.
pub proof fn lemma_row_key_salt_prefix(
    c_id: Seq<char>,
    r_id: Seq<char>,
    ordertime: Seq<char>,
    lines: Seq<Orderline>,
)
    ensures
        ({
            let salt = dec_str(salt_byte_of(r_id) as int);
            spec_row_key(c_id, r_id, ordertime, lines).take(salt.len() as int) == salt
        }),
{
    let salt = dec_str(salt_byte_of(r_id) as int);
    assert(spec_row_key(c_id, r_id, ordertime, lines).take(salt.len() as int) =~= salt);
}

impl Order {
    /// The SHA-256 content digest over customer id, restaurant id, timestamp
    /// and the line items' text forms.
    pub fn hash(c_id: &str, r_id: &str, ordertime: &str, orderlines: &Vec<Orderline>) -> (r: Vec<
        u8,
    >)
        ensures
            r@ == sha256_of(content_bytes(c_id@, r_id@, ordertime@, orderlines@)),
            r@.len() == 32,
    {
        let head = content_prefix(c_id, r_id, ordertime);
        let mut data = head;
        let mut i: usize = 0;
        proof {
            assert(orderlines@.take(0) =~= Seq::<Orderline>::empty());
            assert(data@ + Seq::<u8>::empty() =~= data@);
        }
        while i < orderlines.len()
            invariant
                0 <= i <= orderlines@.len(),
                data@ == encode_utf8(c_id@) + encode_utf8(r_id@) + encode_utf8(ordertime@)
                    + lines_bytes(orderlines@.take(i as int)),
            decreases orderlines@.len() - i,
        {
            let text = orderlines[i].text();
            let mut piece = text.as_str().as_bytes_vec();
            data.append(&mut piece);
            proof {
                assert(orderlines@.take(i as int + 1).drop_last() =~= orderlines@.take(i as int));
                assert(orderlines@.take(i as int + 1).last() == orderlines@[i as int]);
                assert(data@ == encode_utf8(c_id@) + encode_utf8(r_id@) + encode_utf8(ordertime@)
                    + lines_bytes(orderlines@.take(i as int + 1)));
            }
            i = i + 1;
        }
        proof {
            assert(orderlines@.take(orderlines@.len() as int) =~= orderlines@);
        }
        sha256_digest(&data)
    }

    /// The decimal rendering of the salt byte drawn from `seed`.
    pub fn generate_salt(seed: &str) -> (r: String)
        ensures
            r@ == dec_str(salt_byte_of(seed@) as int),
    {
        let b = salt_byte(seed);
        u32_to_dec(b as u32)
    }

    /// Derive the row key for the given order content.
    pub fn generate_o_id(c_id: &str, r_id: &str, ordertime: &str, orderlines: &Vec<Orderline>) -> (r:
        String)
        ensures
            r@ == spec_row_key(c_id@, r_id@, ordertime@, orderlines@),
    {
        let digest = Order::hash(c_id, r_id, ordertime, orderlines);
        let folded = to_u32(digest.as_slice());
        let mut res = Order::generate_salt(r_id);
        let tail = u32_to_dec(folded);
        res.append(tail.as_str());
        res
    }

    /// A new order for the given content: state starts at `Pending`, the
    /// timestamp is read from the clock, and the id is the derived row key.
    pub fn new(
        orderlines: Vec<Orderline>,
        cust_addr: String,
        rest_addr: String,
        c_id: String,
        r_id: String,
    ) -> (o: Order)
        ensures
            o@.c_id == c_id@,
            o@.r_id == r_id@,
            o@.cust_addr == cust_addr@,
            o@.rest_addr == rest_addr@,
            o@.orderlines == orderlines@,
            o@.state == OrderState::Pending,
            o@.o_id == spec_row_key(c_id@, r_id@, o@.ordertime, orderlines@),
    {
        let ordertime = now_rfc3339();
        let o_id = Order::generate_o_id(
            c_id.as_str(),
            r_id.as_str(),
            ordertime.as_str(),
            &orderlines,
        );
        Order {
            o_id,
            c_id,
            r_id,
            ordertime,
            orderlines,
            state: OrderState::Pending,
            cust_addr,
            rest_addr,
        }
    }

    /// The new order a create request describes: the same content, with
    /// state, timestamp and row key assigned as `Order::new` does.
    pub fn from_request(params: CreateOrder) -> (o: Order)
        ensures
            o@.c_id == params.c_id@,
            o@.r_id == params.r_id@,
            o@.cust_addr == params.cust_addr@,
            o@.rest_addr == params.rest_addr@,
            o@.orderlines == params.orderlines@,
            o@.state == OrderState::Pending,
            o@.o_id == spec_row_key(params.c_id@, params.r_id@, o@.ordertime, params.orderlines@),
    {
        Order::new(params.orderlines, params.cust_addr, params.rest_addr, params.c_id, params.r_id)
    }

    /// Finalize a builder into an order: succeeds exactly when every scalar
    /// field was observed and the state text names a state.
    pub fn build(builder: OrderBuilder) -> (r: Option<Order>)
        ensures
            r is Some <==> builder@.complete(),
            r matches Some(o) ==> Some(o@) == order_of_builder(builder@),
            r matches Some(o) ==> {
                &&& Some(o@.o_id) == builder@.o_id
                &&& Some(o@.c_id) == builder@.c_id
                &&& Some(o@.r_id) == builder@.r_id
                &&& Some(o@.ordertime) == builder@.ordertime
                &&& Some(o@.cust_addr) == builder@.cust_addr
                &&& Some(o@.rest_addr) == builder@.rest_addr
                &&& Some(o@.state) == parse_state(builder@.state->0)
                &&& o@.orderlines == builder@.orderlines
            },
    {
        let state_text = match builder.state {
            Some(s) => s,
            None => {
                return None;
            },
        };
        let orderstate = match OrderState::from_str(state_text.as_str()) {
            Ok(s) => s,
            Err(_) => {
                return None;
            },
        };
        let o_id = match builder.o_id {
            Some(v) => v,
            None => {
                return None;
            },
        };
        let c_id = match builder.c_id {
            Some(v) => v,
            None => {
                return None;
            },
        };
        let r_id = match builder.r_id {
            Some(v) => v,
            None => {
                return None;
            },
        };
        let cust_addr = match builder.cust_addr {
            Some(v) => v,
            None => {
                return None;
            },
        };
        let rest_addr = match builder.rest_addr {
            Some(v) => v,
            None => {
                return None;
            },
        };
        let ordertime = match builder.ordertime {
            Some(v) => v,
            None => {
                return None;
            },
        };
        Some(Order {
            o_id,
            c_id,
            r_id,
            cust_addr,
            rest_addr,
            state: orderstate,
            ordertime,
            orderlines: builder.orderlines,
        })
    }
}

impl OrderInfo {
    /// Finalize a builder into a summary: the addresses may be absent, since
    /// the owner scan never fetches them.
    pub fn build(builder: OrderBuilder) -> (r: Option<OrderInfo>)
        ensures
            r is Some <==> info_of_builder(builder@) is Some,
            r matches Some(o) ==> Some(o@) == info_of_builder(builder@),
            r matches Some(o) ==> {
                &&& Some(o@.o_id) == builder@.o_id
                &&& Some(o@.r_id) == builder@.r_id
                &&& Some(o@.c_id) == builder@.c_id
                &&& Some(o@.ordertime) == builder@.ordertime
                &&& Some(o@.state) == parse_state(builder@.state->0)
            },
    {
        let state_text = match builder.state {
            Some(s) => s,
            None => {
                return None;
            },
        };
        let orderstate = match OrderState::from_str(state_text.as_str()) {
            Ok(s) => s,
            Err(_) => {
                return None;
            },
        };
        let o_id = match builder.o_id {
            Some(v) => v,
            None => {
                return None;
            },
        };
        let r_id = match builder.r_id {
            Some(v) => v,
            None => {
                return None;
            },
        };
        let ordertime = match builder.ordertime {
            Some(v) => v,
            None => {
                return None;
            },
        };
        let c_id = match builder.c_id {
            Some(v) => v,
            None => {
                return None;
            },
        };
        Some(OrderInfo { o_id, r_id, state: orderstate, ordertime, c_id })
    }
}

} // verus!
