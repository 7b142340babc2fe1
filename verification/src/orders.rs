//! The order transaction engine.
//!
//! A single linear workflow with early-exit failure branches:
//! validate the buyer, require a non-empty line list, validate every line in
//! submission order against the product joined with its owning business,
//! snapshot unit prices, derive the total, generate the flight number from
//! the current order count, and persist the order with its lines as one
//! atomic aggregate.  The first failure anywhere aborts the whole call and
//! leaves the store exactly as it was: no partial write is ever visible.
//!
//! Monetary amounts are fixed-point cents throughout; no floating point
//! touches a total.

use vstd::prelude::*;

use crate::store::{lines_total, order_wf, OrderRow, PricedLine, Store};
use crate::store::{
    same_admins, same_businesses, same_drones, same_locations, same_products, same_stats,
    same_trips, same_users,
};
use crate::auth::Identity;
use crate::decimal::dchar;
use crate::errors::Outcome;

verus! {

/// One requested line: a product and a quantity.
#[derive(Debug)]
pub struct OrderDetailRequest {
    pub product_id: i32,
    pub amount: i32,
}

/// A submitted order: one or more requested lines.
#[derive(Debug)]
pub struct RegisterOrderRequest {
    pub order_details: Vec<OrderDetailRequest>,
}

/// The success payload of order placement.
#[derive(Debug)]
pub struct RegisterOrderResponse {
    pub order_id: i32,
    pub flight_number: String,
    pub total_price_cents: u128,
    pub approved: bool,
    pub message: String,
}

/// Why order placement aborted; exactly one kind surfaces per call, the
/// first encountered in workflow order.
#[derive(Clone, Copy, Debug, PartialEq, Eq, Structural)]
pub enum OrderFailure {
    UserNotFound,
    UserInactive,
    EmptyOrder,
    ProductNotFound,
    ProductInactive,
    BusinessUnverified,
    InvalidAmount,
}

impl OrderFailure {
    /// The observable outcome of this failure.
    pub fn outcome(&self) -> (o: Outcome)
        ensures
            o == match self {
                OrderFailure::UserNotFound => Outcome::NotFound,
                OrderFailure::UserInactive => Outcome::Forbidden,
                OrderFailure::EmptyOrder => Outcome::BadRequest,
                OrderFailure::ProductNotFound => Outcome::NotFound,
                OrderFailure::ProductInactive => Outcome::BadRequest,
                OrderFailure::BusinessUnverified => Outcome::BadRequest,
                OrderFailure::InvalidAmount => Outcome::BadRequest,
            },
    {
        match self {
            OrderFailure::UserNotFound => Outcome::NotFound,
            OrderFailure::UserInactive => Outcome::Forbidden,
            OrderFailure::EmptyOrder => Outcome::BadRequest,
            OrderFailure::ProductNotFound => Outcome::NotFound,
            OrderFailure::ProductInactive => Outcome::BadRequest,
            OrderFailure::BusinessUnverified => Outcome::BadRequest,
            OrderFailure::InvalidAmount => Outcome::BadRequest,
        }
    }
}

/// What validating one line against the live catalog yields: the priced
/// line with the unit price snapshotted from the product, or the first
/// failing check in order — product (joined with its business) missing,
/// product inactive, business unverified, non-positive amount.
pub open spec fn spec_check_line(s: Store, l: OrderDetailRequest) -> Result<
    PricedLine,
    OrderFailure,
> {
    if !s.has_product(l.product_id as int) {
        Err(OrderFailure::ProductNotFound)
    } else {
        let p = s.product_at(l.product_id as int);
        if !s.has_business(p.business_id as int) {
            Err(OrderFailure::ProductNotFound)
        } else if !p.active {
            Err(OrderFailure::ProductInactive)
        } else if !s.business_at(p.business_id as int).verified {
            Err(OrderFailure::BusinessUnverified)
        } else if l.amount <= 0 {
            Err(OrderFailure::InvalidAmount)
        } else {
            Ok(
                PricedLine {
                    product_id: l.product_id,
                    amount: l.amount,
                    unit_price_cents: p.price_cents,
                },
            )
        }
    }
}

/// What validating the lines in submission order yields: all priced lines,
/// or the failure of the first bad line.
pub open spec fn spec_validate_lines(s: Store, lines: Seq<OrderDetailRequest>) -> Result<
    Seq<PricedLine>,
    OrderFailure,
>
    decreases lines.len(),
{
    if lines.len() == 0 {
        Ok(Seq::empty())
    } else {
        match spec_check_line(s, lines[0]) {
            Err(e) => Err(e),
            Ok(pl) => match spec_validate_lines(s, lines.drop_first()) {
                Err(e) => Err(e),
                Ok(rest) => Ok(seq![pl] + rest),
            },
        }
    }
}

/// What the whole engine decides for a buyer and a line list: the priced
/// lines on success, or the first failure of the workflow — buyer missing,
/// buyer inactive, empty order, then per-line validation.
pub open spec fn spec_register_order(s: Store, subject_id: int, lines: Seq<OrderDetailRequest>)
    -> Result<Seq<PricedLine>, OrderFailure> {
    if !s.has_user(subject_id) {
        Err(OrderFailure::UserNotFound)
    } else if !s.user_at(subject_id).active {
        Err(OrderFailure::UserInactive)
    } else if lines.len() == 0 {
        Err(OrderFailure::EmptyOrder)
    } else {
        spec_validate_lines(s, lines)
    }
}

/// The three-digit zero-padded decimal form of `m` (for `0 <= m < 1000`).
pub open spec fn pad3(m: int) -> Seq<char> {
    seq![dchar(m / 100), dchar((m / 10) % 10), dchar(m % 10)]
}

/// The flight number generated when `count` orders already exist:
/// `FL` followed by `(count + 1) % 1000`, zero-padded to three digits.
/// Deliberately non-unique: the scheme wraps every thousand orders.
pub open spec fn flight_number_seq(count: int) -> Seq<char> {
    seq!['F', 'L'] + pad3((count + 1) % 1000)
}

/// Validating one line reads only the product and business tables.
proof fn lemma_check_line_frame(s1: Store, s2: Store, l: OrderDetailRequest)
    requires
        s1.wf(),
        s2.wf(),
        same_products(s1, s2),
        same_businesses(s1, s2),
    ensures
        spec_check_line(s1, l) == spec_check_line(s2, l),
{
    let id = l.product_id as int;
    assert(s1.products@ == s2.products@);
    assert(s1.businesses@ == s2.businesses@);
    if s1.has_product(id) {
        let i1 = s1.product_ix(id);
        assert(s2.products@[i1].id == id);
        assert(s2.has_product(id));
        let i2 = s2.product_ix(id);
        if i1 < i2 {
            assert(s1.products@[i1].id != s1.products@[i2].id);
        } else if i2 < i1 {
            assert(s1.products@[i2].id != s1.products@[i1].id);
        }
        assert(s1.product_at(id) == s2.product_at(id));
        let bid = s1.product_at(id).business_id as int;
        if s1.has_business(bid) {
            let b1 = s1.business_ix(bid);
            assert(s2.businesses@[b1].id == bid);
            assert(s2.has_business(bid));
            let b2 = s2.business_ix(bid);
            if b1 < b2 {
                assert(s1.businesses@[b1].id != s1.businesses@[b2].id);
            } else if b2 < b1 {
                assert(s1.businesses@[b2].id != s1.businesses@[b1].id);
            }
            assert(s1.business_at(bid) == s2.business_at(bid));
        } else {
            if s2.has_business(bid) {
                let b2 = s2.business_ix(bid);
                assert(s1.businesses@[b2].id == bid);
                assert(s1.has_business(bid));
            }
        }
    } else {
        if s2.has_product(id) {
            let i2 = s2.product_ix(id);
            assert(s1.products@[i2].id == id);
            assert(s1.has_product(id));
        }
    }
}

/// Line validation is a function of the submitted lines and the product and
/// business state alone: against unchanged catalog state, two validation
/// passes yield identical priced lines — and so identical computed totals.
pub proof fn lemma_validation_idempotent(s1: Store, s2: Store, lines: Seq<OrderDetailRequest>)
    requires
        s1.wf(),
        s2.wf(),
        same_products(s1, s2),
        same_businesses(s1, s2),
    ensures
        spec_validate_lines(s1, lines) == spec_validate_lines(s2, lines),
    decreases lines.len(),
{
    if lines.len() == 0 {
    } else {
        lemma_check_line_frame(s1, s2, lines[0]);
        lemma_validation_idempotent(s1, s2, lines.drop_first());
    }
}

/// Validating one more line at the end first validates the prefix, then the
/// new line.
proof fn lemma_validate_snoc(s: Store, pre: Seq<OrderDetailRequest>, l: OrderDetailRequest)
    ensures
        spec_validate_lines(s, pre.push(l)) == (match spec_validate_lines(s, pre) {
            Err(e) => Err(e),
            Ok(pls) => match spec_check_line(s, l) {
                Err(e) => Err::<Seq<PricedLine>, OrderFailure>(e),
                Ok(pl) => Ok(pls.push(pl)),
            },
        }),
    decreases pre.len(),
{
    reveal_with_fuel(spec_validate_lines, 3);
    if pre.len() == 0 {
        assert(pre.push(l)[0] == l);
        assert(pre.push(l).drop_first() =~= Seq::<OrderDetailRequest>::empty());
        match spec_check_line(s, l) {
            Err(e) => {},
            Ok(pl) => {
                assert(seq![pl] + Seq::<PricedLine>::empty() =~= Seq::<PricedLine>::empty().push(
                    pl,
                ));
            },
        }
    } else {
        lemma_validate_snoc(s, pre.drop_first(), l);
        assert(pre.push(l)[0] == pre[0]);
        assert(pre.push(l).drop_first() =~= pre.drop_first().push(l));
        match spec_check_line(s, pre[0]) {
            Err(e) => {},
            Ok(pl0) => {
                match spec_validate_lines(s, pre.drop_first()) {
                    Err(e) => {},
                    Ok(rest) => match spec_check_line(s, l) {
                        Err(e) => {},
                        Ok(pl) => {
                            assert(seq![pl0] + rest.push(pl) =~= (seq![pl0] + rest).push(pl));
                        },
                    },
                }
            },
        }
    }
}

/// A failing prefix decides the whole list: validation reports the first
/// failure and looks no further.
proof fn lemma_validate_err_extend(
    s: Store,
    pre: Seq<OrderDetailRequest>,
    suf: Seq<OrderDetailRequest>,
)
    requires
        spec_validate_lines(s, pre) is Err,
    ensures
        spec_validate_lines(s, pre + suf) == spec_validate_lines(s, pre),
    decreases pre.len(),
{
    reveal_with_fuel(spec_validate_lines, 3);
    if pre.len() == 0 {
    } else {
        assert((pre + suf)[0] == pre[0]);
        assert((pre + suf).drop_first() =~= pre.drop_first() + suf);
        match spec_check_line(s, pre[0]) {
            Err(e) => {},
            Ok(_) => {
                lemma_validate_err_extend(s, pre.drop_first(), suf);
            },
        }
    }
}

/// Renders the flight number for an existing order count of `count`.
fn flight_string(count: usize) -> (s: String)
    ensures
        s@ == flight_number_seq(count as int),
{
    let digits = "0123456789";
    proof {
        reveal_strlit("0123456789");
        reveal_strlit("FL");
    }
    let c = count % 1000;
    let m = if c == 999 {
        0
    } else {
        c + 1
    };
    proof {
        vstd::arithmetic::div_mod::lemma_add_mod_noop(count as int, 1, 1000);
        assert(m == (count + 1) % 1000);
    }
    let mut s = "FL".to_owned();
    let h = m / 100;
    let t = (m / 10) % 10;
    let o = m % 10;
    s.append(digits.substring_ascii(h, h + 1));
    s.append(digits.substring_ascii(t, t + 1));
    s.append(digits.substring_ascii(o, o + 1));
    proof {
        assert(s@ =~= flight_number_seq(count as int));
    }
    s
}

/// Validates one submitted line against the live catalog.
fn check_line(store: &Store, l: &OrderDetailRequest) -> (r: Result<PricedLine, OrderFailure>)
    requires
        store.wf(),
    ensures
        r == spec_check_line(*store, *l),
        r matches Ok(pl) ==> pl.amount > 0,
{
    match store.find_product_ix(l.product_id) {
        None => Err(OrderFailure::ProductNotFound),
        Some(pix) => {
            let business_id = store.products[pix].business_id;
            match store.find_business_ix(business_id) {
                None => Err(OrderFailure::ProductNotFound),
                Some(bix) => {
                    if !store.products[pix].active {
                        Err(OrderFailure::ProductInactive)
                    } else if !store.businesses[bix].verified {
                        Err(OrderFailure::BusinessUnverified)
                    } else if l.amount <= 0 {
                        Err(OrderFailure::InvalidAmount)
                    } else {
                        Ok(
                            PricedLine {
                                product_id: l.product_id,
                                amount: l.amount,
                                unit_price_cents: store.products[pix].price_cents,
                            },
                        )
                    }
                },
            }
        },
    }
}

/// Places an order: the one multi-row, all-or-nothing workflow.
///
/// On success the store gains exactly one order aggregate — the response's
/// id, flight number, priced lines and total — and nothing else changes.
/// On failure the store is exactly as it was: no order row and no line is
/// visible from a failed call.
pub fn register_order(store: &mut Store, identity: &Identity, req: &RegisterOrderRequest) -> (r:
    Result<RegisterOrderResponse, OrderFailure>)
    requires
        old(store).wf(),
        old(store).next_order_id < i32::MAX,
        req.order_details@.len() <= u32::MAX,
    ensures
        final(store).wf(),
        match r {
            Err(e) => *final(store) == *old(store) && spec_register_order(
                *old(store),
                identity.subject_id as int,
                req.order_details@,
            ) == Err::<Seq<PricedLine>, OrderFailure>(e),
            Ok(resp) => {
                &&& spec_register_order(
                    *old(store),
                    identity.subject_id as int,
                    req.order_details@,
                ) matches Ok(pls)
                &&& resp.total_price_cents as int == lines_total(pls)
                &&& resp.order_id == old(store).next_order_id
                &&& resp.flight_number@ == flight_number_seq(old(store).orders@.len() as int)
                &&& resp.approved == false
                &&& resp.message@ == "Order registered successfully"@
                &&& final(store).orders@.len() == old(store).orders@.len() + 1
                &&& final(store).orders@.drop_last() == old(store).orders@
                &&& final(store).orders@.last().id == resp.order_id
                &&& final(store).orders@.last().flight_number@ == resp.flight_number@
                &&& final(store).orders@.last().total_cents == resp.total_price_cents
                &&& final(store).orders@.last().user_id == identity.subject_id
                &&& final(store).orders@.last().approved == false
                &&& final(store).orders@.last().lines@ == pls
                &&& final(store).next_order_id == old(store).next_order_id + 1
                &&& same_users(*old(store), *final(store))
                &&& same_admins(*old(store), *final(store))
                &&& same_businesses(*old(store), *final(store))
                &&& same_products(*old(store), *final(store))
                &&& same_drones(*old(store), *final(store))
                &&& same_locations(*old(store), *final(store))
                &&& same_trips(*old(store), *final(store))
                &&& same_stats(*old(store), *final(store))
            },
        },
{
    let uix = match store.find_user_ix(identity.subject_id) {
        None => {
            return Err(OrderFailure::UserNotFound);
        },
        Some(ix) => ix,
    };
    if !store.users[uix].active {
        return Err(OrderFailure::UserInactive);
    }
    let n = req.order_details.len();
    if n == 0 {
        return Err(OrderFailure::EmptyOrder);
    }
    let mut priced: Vec<PricedLine> = Vec::new();
    let mut total: u128 = 0;
    let mut i: usize = 0;
    proof {
        assert(req.order_details@.take(0) =~= Seq::<OrderDetailRequest>::empty());
    }
    while i < n
        invariant
            i <= n,
            n == req.order_details@.len(),
            n <= u32::MAX,
            0 < n,
            *store == *old(store),
            store.wf(),
            old(store).has_user(identity.subject_id as int),
            old(store).user_at(identity.subject_id as int).active,
            forall|j: int| 0 <= j < priced@.len() ==> (#[trigger] priced@[j]).amount > 0,
            spec_validate_lines(*store, req.order_details@.take(i as int)) == Ok::<
                _,
                OrderFailure,
            >(priced@),
            priced@.len() == i,
            total as int == lines_total(priced@),
            // one line is worth less than 2^95 cents (64-bit price times
            // 31-bit amount), so the running total stays far below u128
            total as int <= i * 0x800000000000000000000000,
        decreases n - i,
    {
        let ghost pre_lines = req.order_details@.take(i as int);
        match check_line(store, &req.order_details[i]) {
            Err(e) => {
                proof {
                    lemma_validate_snoc(*store, pre_lines, req.order_details@[i as int]);
                    assert(pre_lines.push(req.order_details@[i as int]) =~= req.order_details@.take(
                        i + 1,
                    ));
                    lemma_validate_err_extend(
                        *store,
                        req.order_details@.take(i + 1),
                        req.order_details@.skip(i + 1),
                    );
                    assert(req.order_details@.take(i + 1) + req.order_details@.skip(i + 1)
                        =~= req.order_details@);
                }
                return Err(e);
            },
            Ok(pl) => {
                proof {
                    lemma_validate_snoc(*store, pre_lines, req.order_details@[i as int]);
                    assert(pre_lines.push(req.order_details@[i as int]) =~= req.order_details@.take(
                        i + 1,
                    ));
                    assert((pl.unit_price_cents as int) * (pl.amount as int)
                        < 0x800000000000000000000000) by (nonlinear_arith)
                        requires
                            pl.unit_price_cents <= 0xffffffffffffffffu64,
                            0 < pl.amount <= 0x7fffffffi32,
                    ;
                    assert((i + 1) * 0x800000000000000000000000 <= 0x100000000
                        * 0x800000000000000000000000) by (nonlinear_arith)
                        requires i + 1 <= 0x100000000,
                    ;
                    assert(priced@.push(pl).drop_last() =~= priced@);
                    assert(lines_total(priced@.push(pl)) == lines_total(priced@) + (
                    pl.unit_price_cents as int) * (pl.amount as int));
                }
                let line_value: u128 = (pl.unit_price_cents as u128) * (pl.amount as u128);
                total = total + line_value;
                priced.push(pl);
            },
        }
        i = i + 1;
    }
    proof {
        assert(req.order_details@.take(n as int) =~= req.order_details@);
    }
    let count = store.orders.len();
    let fl = flight_string(count);
    let order_id = store.next_order_id;
    let flight_for_row = fl.clone();
    let ghost priced_view = priced@;
    let row = OrderRow {
        id: order_id,
        flight_number: flight_for_row,
        total_cents: total,
        user_id: identity.subject_id,
        approved: false,
        lines: priced,
    };
    proof {
        assert(order_wf(row)) by {
            assert(row.lines@ == priced_view);
        }
    }
    store.orders.push(row);
    store.next_order_id = order_id + 1;
    proof {
        let pre = *old(store);
        let post = *store;
        assert(post.orders@.drop_last() =~= pre.orders@);
        assert forall|p: int, q: int|
            0 <= p < q < post.orders@.len() implies (#[trigger] post.orders@[p]).id != (
        #[trigger] post.orders@[q]).id by {
            if q < post.orders@.len() - 1 {
                assert(pre.orders@[p].id != pre.orders@[q].id);
            } else {
                assert(pre.orders@[p].id < pre.next_order_id);
            }
        }
        assert forall|p: int|
            0 <= p < post.orders@.len() implies (#[trigger] post.orders@[p]).id
            < post.next_order_id by {
            if p < post.orders@.len() - 1 {
                assert(pre.orders@[p].id < pre.next_order_id);
            }
        }
        assert forall|p: int| 0 <= p < post.orders@.len() implies order_wf(
            #[trigger] post.orders@[p],
        ) by {
            if p < post.orders@.len() - 1 {
                assert(order_wf(pre.orders@[p]));
            }
        }
    }
    Ok(
        RegisterOrderResponse {
            order_id,
            flight_number: fl,
            total_price_cents: total,
            approved: false,
            message: "Order registered successfully".to_owned(),
        },
    )
}

} // verus!
