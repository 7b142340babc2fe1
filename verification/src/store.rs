//! In-memory image of the persistence gateway.
//!
//! [`Store`] holds the rows that the operations of this crate read and
//! write: users, admins, businesses, products, drones, orders (each an
//! atomic aggregate carrying its own lines), locations, trips and the
//! account counters.  [`Store::wf`] is the data invariant every operation
//! requires and preserves: ids are unique within a table and below the
//! table's next fresh id, usernames and drone numbers are unique, and every
//! persisted order satisfies the aggregate invariant (at least one line,
//! positive amounts, total equal to the sum of its lines).

use vstd::prelude::*;

verus! {

/// A user account row.
#[derive(Clone, Debug)]
pub struct UserRow {
    pub id: i32,
    pub username: String,
    pub name: String,
    pub lastname: String,
    pub phone: i64,
    pub email: String,
    pub password_hash: Option<String>,
    pub active: bool,
}

/// A business row; `verified` gates order placement, `owner_id` gates
/// mutation.
#[derive(Clone, Debug)]
pub struct BusinessRow {
    pub id: i32,
    pub name: String,
    pub description: String,
    pub owner_id: i32,
    pub verified: bool,
    pub active: bool,
    pub location_id: Option<i32>,
}

/// A product row; prices are fixed-point cents.
#[derive(Clone, Debug)]
pub struct ProductRow {
    pub id: i32,
    pub name: String,
    pub description: String,
    pub price_cents: u64,
    pub business_id: i32,
    pub active: bool,
}

/// A drone row.
#[derive(Clone, Debug)]
pub struct DroneRow {
    pub id: i32,
    pub name: String,
    pub number: i32,
    pub user_id: i32,
    pub active: bool,
}

/// One priced line of a persisted order: the unit price is the product's
/// price snapshotted at validation time.
#[derive(Clone, Debug)]
pub struct PricedLine {
    pub product_id: i32,
    pub amount: i32,
    pub unit_price_cents: u64,
}

/// A persisted order together with its lines: an atomic aggregate, created
/// in one step or not at all.
#[derive(Clone, Debug)]
pub struct OrderRow {
    pub id: i32,
    pub flight_number: String,
    pub total_cents: u128,
    pub user_id: i32,
    pub approved: bool,
    pub lines: Vec<PricedLine>,
}

/// A location row; coordinates are fixed-point millionths of a degree.
#[derive(Clone, Debug)]
pub struct LocationRow {
    pub id: i32,
    pub name: Option<String>,
    pub latitude_micro: i64,
    pub longitude_micro: i64,
}

/// A delivery trip row; weights, distances and times are fixed-point
/// thousandths of their unit.
#[derive(Clone, Debug)]
pub struct TripRow {
    pub id: i32,
    pub weight_milli: i64,
    pub distance_milli: i64,
    pub est_time_milli: i64,
    pub state: String,
    pub order_id: i32,
    pub from_location_id: i32,
    pub to_location_id: i32,
    pub drone_id: i32,
}

/// Global account counters.
#[derive(Clone, Copy, Debug, PartialEq, Eq, Structural)]
pub struct StatsCounters {
    pub total_accounts: i64,
    pub active_accounts: i64,
    pub inactive_accounts: i64,
}

/// The sum, in cents, of `unit price * amount` over the given lines.
pub open spec fn lines_total(s: Seq<PricedLine>) -> int
    decreases s.len(),
{
    if s.len() == 0 {
        0
    } else {
        lines_total(s.drop_last()) + s.last().unit_price_cents * s.last().amount
    }
}

/// The aggregate invariant of one persisted order.
pub open spec fn order_wf(o: OrderRow) -> bool {
    &&& o.lines@.len() >= 1
    &&& o.total_cents as int == lines_total(o.lines@)
    &&& forall|j: int| 0 <= j < o.lines@.len() ==> (#[trigger] o.lines@[j]).amount > 0
}

/// The in-memory persistence gateway.
pub struct Store {
    pub users: Vec<UserRow>,
    pub admins: Vec<i32>,
    pub businesses: Vec<BusinessRow>,
    pub products: Vec<ProductRow>,
    pub drones: Vec<DroneRow>,
    pub orders: Vec<OrderRow>,
    pub locations: Vec<LocationRow>,
    pub trips: Vec<TripRow>,
    pub stats: StatsCounters,
    pub next_user_id: i32,
    pub next_business_id: i32,
    pub next_product_id: i32,
    pub next_drone_id: i32,
    pub next_order_id: i32,
    pub next_location_id: i32,
    pub next_trip_id: i32,
}

impl Store {
    pub open spec fn users_wf(self) -> bool {
        &&& forall|p: int, q: int|
            0 <= p < q < self.users@.len() ==> (#[trigger] self.users@[p]).id != (
            #[trigger] self.users@[q]).id
        &&& forall|p: int, q: int|
            0 <= p < q < self.users@.len() ==> (#[trigger] self.users@[p]).username@ != (
            #[trigger] self.users@[q]).username@
        &&& forall|p: int| 0 <= p < self.users@.len() ==> (#[trigger] self.users@[p]).id < self.next_user_id
    }

    pub open spec fn businesses_wf(self) -> bool {
        &&& forall|p: int, q: int|
            0 <= p < q < self.businesses@.len() ==> (#[trigger] self.businesses@[p]).id != (
            #[trigger] self.businesses@[q]).id
        &&& forall|p: int|
            0 <= p < self.businesses@.len() ==> (#[trigger] self.businesses@[p]).id
                < self.next_business_id
    }

    pub open spec fn products_wf(self) -> bool {
        &&& forall|p: int, q: int|
            0 <= p < q < self.products@.len() ==> (#[trigger] self.products@[p]).id != (
            #[trigger] self.products@[q]).id
        &&& forall|p: int|
            0 <= p < self.products@.len() ==> (#[trigger] self.products@[p]).id
                < self.next_product_id
    }

    pub open spec fn drones_wf(self) -> bool {
        &&& forall|p: int, q: int|
            0 <= p < q < self.drones@.len() ==> (#[trigger] self.drones@[p]).id != (
            #[trigger] self.drones@[q]).id
        &&& forall|p: int, q: int|
            0 <= p < q < self.drones@.len() ==> (#[trigger] self.drones@[p]).number != (
            #[trigger] self.drones@[q]).number
        &&& forall|p: int|
            0 <= p < self.drones@.len() ==> (#[trigger] self.drones@[p]).id < self.next_drone_id
    }

    pub open spec fn orders_wf(self) -> bool {
        &&& forall|p: int, q: int|
            0 <= p < q < self.orders@.len() ==> (#[trigger] self.orders@[p]).id != (
            #[trigger] self.orders@[q]).id
        &&& forall|p: int|
            0 <= p < self.orders@.len() ==> (#[trigger] self.orders@[p]).id < self.next_order_id
        &&& forall|p: int| 0 <= p < self.orders@.len() ==> order_wf(#[trigger] self.orders@[p])
    }

    pub open spec fn locations_wf(self) -> bool {
        &&& forall|p: int, q: int|
            0 <= p < q < self.locations@.len() ==> (#[trigger] self.locations@[p]).id != (
            #[trigger] self.locations@[q]).id
        &&& forall|p: int|
            0 <= p < self.locations@.len() ==> (#[trigger] self.locations@[p]).id
                < self.next_location_id
    }

    pub open spec fn trips_wf(self) -> bool {
        &&& forall|p: int, q: int|
            0 <= p < q < self.trips@.len() ==> (#[trigger] self.trips@[p]).id != (
            #[trigger] self.trips@[q]).id
        &&& forall|p: int|
            0 <= p < self.trips@.len() ==> (#[trigger] self.trips@[p]).id < self.next_trip_id
    }

    /// The store invariant: every operation requires and preserves it.
    pub open spec fn wf(self) -> bool {
        &&& self.users_wf()
        &&& self.businesses_wf()
        &&& self.products_wf()
        &&& self.drones_wf()
        &&& self.orders_wf()
        &&& self.locations_wf()
        &&& self.trips_wf()
    }

    /// An empty store.
    pub fn new() -> (s: Store)
        ensures
            s.wf(),
            s.users@.len() == 0,
            s.admins@.len() == 0,
            s.businesses@.len() == 0,
            s.products@.len() == 0,
            s.drones@.len() == 0,
            s.orders@.len() == 0,
            s.locations@.len() == 0,
            s.trips@.len() == 0,
            s.stats == (StatsCounters { total_accounts: 0, active_accounts: 0, inactive_accounts: 0 }),
            s.next_user_id == 1,
            s.next_business_id == 1,
            s.next_product_id == 1,
            s.next_drone_id == 1,
            s.next_order_id == 1,
            s.next_location_id == 1,
            s.next_trip_id == 1,
    {
        Store {
            users: Vec::new(),
            admins: Vec::new(),
            businesses: Vec::new(),
            products: Vec::new(),
            drones: Vec::new(),
            orders: Vec::new(),
            locations: Vec::new(),
            trips: Vec::new(),
            stats: StatsCounters { total_accounts: 0, active_accounts: 0, inactive_accounts: 0 },
            next_user_id: 1,
            next_business_id: 1,
            next_product_id: 1,
            next_drone_id: 1,
            next_order_id: 1,
            next_location_id: 1,
            next_trip_id: 1,
        }
    }

    // --- spec-level lookups -------------------------------------------------

    pub open spec fn has_user(self, id: int) -> bool {
        exists|i: int| 0 <= i < self.users@.len() && (#[trigger] self.users@[i]).id == id
    }

    pub open spec fn user_ix(self, id: int) -> int {
        choose|i: int| 0 <= i < self.users@.len() && (#[trigger] self.users@[i]).id == id
    }

    pub open spec fn user_at(self, id: int) -> UserRow {
        self.users@[self.user_ix(id)]
    }

    pub open spec fn has_username(self, name: Seq<char>) -> bool {
        exists|i: int|
            0 <= i < self.users@.len() && (#[trigger] self.users@[i]).username@ == name
    }

    pub open spec fn username_ix(self, name: Seq<char>) -> int {
        choose|i: int|
            0 <= i < self.users@.len() && (#[trigger] self.users@[i]).username@ == name
    }

    pub open spec fn is_admin_spec(self, id: int) -> bool {
        exists|i: int| 0 <= i < self.admins@.len() && (#[trigger] self.admins@[i]) == id
    }

    pub open spec fn has_business(self, id: int) -> bool {
        exists|i: int| 0 <= i < self.businesses@.len() && (#[trigger] self.businesses@[i]).id == id
    }

    pub open spec fn business_ix(self, id: int) -> int {
        choose|i: int| 0 <= i < self.businesses@.len() && (#[trigger] self.businesses@[i]).id == id
    }

    pub open spec fn business_at(self, id: int) -> BusinessRow {
        self.businesses@[self.business_ix(id)]
    }

    pub open spec fn has_product(self, id: int) -> bool {
        exists|i: int| 0 <= i < self.products@.len() && (#[trigger] self.products@[i]).id == id
    }

    pub open spec fn product_ix(self, id: int) -> int {
        choose|i: int| 0 <= i < self.products@.len() && (#[trigger] self.products@[i]).id == id
    }

    pub open spec fn product_at(self, id: int) -> ProductRow {
        self.products@[self.product_ix(id)]
    }

    pub open spec fn has_drone(self, id: int) -> bool {
        exists|i: int| 0 <= i < self.drones@.len() && (#[trigger] self.drones@[i]).id == id
    }

    pub open spec fn drone_ix(self, id: int) -> int {
        choose|i: int| 0 <= i < self.drones@.len() && (#[trigger] self.drones@[i]).id == id
    }

    pub open spec fn drone_at(self, id: int) -> DroneRow {
        self.drones@[self.drone_ix(id)]
    }

    pub open spec fn has_drone_number(self, number: int) -> bool {
        exists|i: int| 0 <= i < self.drones@.len() && (#[trigger] self.drones@[i]).number == number
    }

    pub open spec fn has_order(self, id: int) -> bool {
        exists|i: int| 0 <= i < self.orders@.len() && (#[trigger] self.orders@[i]).id == id
    }

    pub open spec fn order_ix(self, id: int) -> int {
        choose|i: int| 0 <= i < self.orders@.len() && (#[trigger] self.orders@[i]).id == id
    }

    pub open spec fn order_at(self, id: int) -> OrderRow {
        self.orders@[self.order_ix(id)]
    }

    // --- executable lookups -------------------------------------------------

    /// Index of the user row with `id`, if any.
    pub fn find_user_ix(&self, id: i32) -> (r: Option<usize>)
        requires
            self.wf(),
        ensures
            match r {
                Some(ix) => ix < self.users@.len() && self.users@[ix as int].id == id
                    && self.has_user(id as int) && ix as int == self.user_ix(id as int),
                None => !self.has_user(id as int),
            },
    {
        let n = self.users.len();
        let mut i: usize = 0;
        while i < n
            invariant
                i <= n,
                n == self.users@.len(),
                self.wf(),
                forall|j: int| 0 <= j < i ==> (#[trigger] self.users@[j]).id != id,
            decreases n - i,
        {
            if self.users[i].id == id {
                proof {
                    assert(self.has_user(id as int));
                    let k = self.user_ix(id as int);
                    if k < i as int {
                        assert(self.users@[k].id != self.users@[i as int].id);
                    } else if k > i as int {
                        assert(self.users@[i as int].id != self.users@[k].id);
                    }
                }
                return Some(i);
            }
            i = i + 1;
        }
        None
    }

    /// Index of the user row with `username`, if any.
    pub fn find_username_ix(&self, username: &String) -> (r: Option<usize>)
        requires
            self.wf(),
        ensures
            match r {
                Some(ix) => ix < self.users@.len() && self.users@[ix as int].username@ == username@
                    && self.has_username(username@) && ix as int == self.username_ix(username@),
                None => !self.has_username(username@),
            },
    {
        let n = self.users.len();
        let mut i: usize = 0;
        while i < n
            invariant
                i <= n,
                n == self.users@.len(),
                self.wf(),
                forall|j: int| 0 <= j < i ==> (#[trigger] self.users@[j]).username@ != username@,
            decreases n - i,
        {
            if self.users[i].username.eq(username) {
                proof {
                    assert(self.has_username(username@));
                    let k = self.username_ix(username@);
                    if k < i as int {
                        assert(self.users@[k].username@ != self.users@[i as int].username@);
                    } else if k > i as int {
                        assert(self.users@[i as int].username@ != self.users@[k].username@);
                    }
                }
                return Some(i);
            }
            i = i + 1;
        }
        None
    }

    /// Whether `user_id` is in the admins table; looked up fresh per call.
    pub fn is_admin(&self, user_id: i32) -> (r: bool)
        ensures
            r == self.is_admin_spec(user_id as int),
    {
        let n = self.admins.len();
        let mut i: usize = 0;
        while i < n
            invariant
                i <= n,
                n == self.admins@.len(),
                forall|j: int| 0 <= j < i ==> (#[trigger] self.admins@[j]) != user_id,
            decreases n - i,
        {
            if self.admins[i] == user_id {
                return true;
            }
            i = i + 1;
        }
        false
    }

    /// Index of the business row with `id`, if any.
    pub fn find_business_ix(&self, id: i32) -> (r: Option<usize>)
        requires
            self.wf(),
        ensures
            match r {
                Some(ix) => ix < self.businesses@.len() && self.businesses@[ix as int].id == id
                    && self.has_business(id as int) && ix as int == self.business_ix(id as int),
                None => !self.has_business(id as int),
            },
    {
        let n = self.businesses.len();
        let mut i: usize = 0;
        while i < n
            invariant
                i <= n,
                n == self.businesses@.len(),
                self.wf(),
                forall|j: int| 0 <= j < i ==> (#[trigger] self.businesses@[j]).id != id,
            decreases n - i,
        {
            if self.businesses[i].id == id {
                proof {
                    assert(self.has_business(id as int));
                    let k = self.business_ix(id as int);
                    if k < i as int {
                        assert(self.businesses@[k].id != self.businesses@[i as int].id);
                    } else if k > i as int {
                        assert(self.businesses@[i as int].id != self.businesses@[k].id);
                    }
                }
                return Some(i);
            }
            i = i + 1;
        }
        None
    }

    /// Index of the product row with `id`, if any.
    pub fn find_product_ix(&self, id: i32) -> (r: Option<usize>)
        requires
            self.wf(),
        ensures
            match r {
                Some(ix) => ix < self.products@.len() && self.products@[ix as int].id == id
                    && self.has_product(id as int) && ix as int == self.product_ix(id as int),
                None => !self.has_product(id as int),
            },
    {
        let n = self.products.len();
        let mut i: usize = 0;
        while i < n
            invariant
                i <= n,
                n == self.products@.len(),
                self.wf(),
                forall|j: int| 0 <= j < i ==> (#[trigger] self.products@[j]).id != id,
            decreases n - i,
        {
            if self.products[i].id == id {
                proof {
                    assert(self.has_product(id as int));
                    let k = self.product_ix(id as int);
                    if k < i as int {
                        assert(self.products@[k].id != self.products@[i as int].id);
                    } else if k > i as int {
                        assert(self.products@[i as int].id != self.products@[k].id);
                    }
                }
                return Some(i);
            }
            i = i + 1;
        }
        None
    }

    /// Index of the drone row with `id`, if any.
    pub fn find_drone_ix(&self, id: i32) -> (r: Option<usize>)
        requires
            self.wf(),
        ensures
            match r {
                Some(ix) => ix < self.drones@.len() && self.drones@[ix as int].id == id
                    && self.has_drone(id as int) && ix as int == self.drone_ix(id as int),
                None => !self.has_drone(id as int),
            },
    {
        let n = self.drones.len();
        let mut i: usize = 0;
        while i < n
            invariant
                i <= n,
                n == self.drones@.len(),
                self.wf(),
                forall|j: int| 0 <= j < i ==> (#[trigger] self.drones@[j]).id != id,
            decreases n - i,
        {
            if self.drones[i].id == id {
                proof {
                    assert(self.has_drone(id as int));
                    let k = self.drone_ix(id as int);
                    if k < i as int {
                        assert(self.drones@[k].id != self.drones@[i as int].id);
                    } else if k > i as int {
                        assert(self.drones@[i as int].id != self.drones@[k].id);
                    }
                }
                return Some(i);
            }
            i = i + 1;
        }
        None
    }

    /// Whether some drone already carries `number`.
    pub fn drone_number_taken(&self, number: i32) -> (r: bool)
        ensures
            r == self.has_drone_number(number as int),
    {
        let n = self.drones.len();
        let mut i: usize = 0;
        while i < n
            invariant
                i <= n,
                n == self.drones@.len(),
                forall|j: int| 0 <= j < i ==> (#[trigger] self.drones@[j]).number != number,
            decreases n - i,
        {
            if self.drones[i].number == number {
                return true;
            }
            i = i + 1;
        }
        false
    }

    /// Index of the order row with `id`, if any.
    pub fn find_order_ix(&self, id: i32) -> (r: Option<usize>)
        requires
            self.wf(),
        ensures
            match r {
                Some(ix) => ix < self.orders@.len() && self.orders@[ix as int].id == id
                    && self.has_order(id as int) && ix as int == self.order_ix(id as int),
                None => !self.has_order(id as int),
            },
    {
        let n = self.orders.len();
        let mut i: usize = 0;
        while i < n
            invariant
                i <= n,
                n == self.orders@.len(),
                self.wf(),
                forall|j: int| 0 <= j < i ==> (#[trigger] self.orders@[j]).id != id,
            decreases n - i,
        {
            if self.orders[i].id == id {
                proof {
                    assert(self.has_order(id as int));
                    let k = self.order_ix(id as int);
                    if k < i as int {
                        assert(self.orders@[k].id != self.orders@[i as int].id);
                    } else if k > i as int {
                        assert(self.orders@[i as int].id != self.orders@[k].id);
                    }
                }
                return Some(i);
            }
            i = i + 1;
        }
        None
    }
    // --- guarded mutations ----------------------------------------------------

    /// Inserts `row` as a fresh user: its id is replaced by the next fresh
    /// one.  The caller has ruled the username out as taken.
    pub fn insert_user(&mut self, row: UserRow) -> (id: i32)
        requires
            old(self).wf(),
            old(self).next_user_id < i32::MAX,
            !old(self).has_username(row.username@),
        ensures
            final(self).wf(),
            id == old(self).next_user_id,
            final(self).users@ == old(self).users@.push((UserRow { id, ..row })),
            final(self).next_user_id == old(self).next_user_id + 1,
            same_admins(*old(self), *final(self)),
            same_businesses(*old(self), *final(self)),
            same_products(*old(self), *final(self)),
            same_drones(*old(self), *final(self)),
            same_orders(*old(self), *final(self)),
            same_locations(*old(self), *final(self)),
            same_trips(*old(self), *final(self)),
            same_stats(*old(self), *final(self)),
    {
        let id = self.next_user_id;
        let mut r = row;
        r.id = id;
        self.users.push(r);
        self.next_user_id = id + 1;
        proof {
            assert(self.users@.drop_last() =~= old(self).users@);
            lemma_push_keeps_users_wf(*old(self), *self);
        }
        id
    }

    /// Replaces the user row at `ix`, keeping its id and username.
    pub fn set_user(&mut self, ix: usize, row: UserRow)
        requires
            old(self).wf(),
            ix < old(self).users@.len(),
            row.id == old(self).users@[ix as int].id,
            row.username@ == old(self).users@[ix as int].username@,
        ensures
            final(self).wf(),
            final(self).users@ == old(self).users@.update(ix as int, row),
            final(self).next_user_id == old(self).next_user_id,
            same_admins(*old(self), *final(self)),
            same_businesses(*old(self), *final(self)),
            same_products(*old(self), *final(self)),
            same_drones(*old(self), *final(self)),
            same_orders(*old(self), *final(self)),
            same_locations(*old(self), *final(self)),
            same_trips(*old(self), *final(self)),
            same_stats(*old(self), *final(self)),
    {
        self.users[ix] = row;
        proof {
            lemma_update_keeps_users_wf(*old(self), *self, ix as int);
        }
    }

    /// Inserts `row` as a fresh business: its id is replaced by the next
    /// fresh one.
    pub fn insert_business(&mut self, row: BusinessRow) -> (id: i32)
        requires
            old(self).wf(),
            old(self).next_business_id < i32::MAX,
        ensures
            final(self).wf(),
            id == old(self).next_business_id,
            final(self).businesses@ == old(self).businesses@.push((BusinessRow { id, ..row })),
            final(self).next_business_id == old(self).next_business_id + 1,
            same_users(*old(self), *final(self)),
            same_admins(*old(self), *final(self)),
            same_products(*old(self), *final(self)),
            same_drones(*old(self), *final(self)),
            same_orders(*old(self), *final(self)),
            same_locations(*old(self), *final(self)),
            same_trips(*old(self), *final(self)),
            same_stats(*old(self), *final(self)),
    {
        let id = self.next_business_id;
        let mut r = row;
        r.id = id;
        self.businesses.push(r);
        self.next_business_id = id + 1;
        id
    }

    /// Replaces the business row at `ix`, keeping its id.
    pub fn set_business(&mut self, ix: usize, row: BusinessRow)
        requires
            old(self).wf(),
            ix < old(self).businesses@.len(),
            row.id == old(self).businesses@[ix as int].id,
        ensures
            final(self).wf(),
            final(self).businesses@ == old(self).businesses@.update(ix as int, row),
            final(self).next_business_id == old(self).next_business_id,
            same_users(*old(self), *final(self)),
            same_admins(*old(self), *final(self)),
            same_products(*old(self), *final(self)),
            same_drones(*old(self), *final(self)),
            same_orders(*old(self), *final(self)),
            same_locations(*old(self), *final(self)),
            same_trips(*old(self), *final(self)),
            same_stats(*old(self), *final(self)),
    {
        self.businesses[ix] = row;
    }

    /// Inserts `row` as a fresh product: its id is replaced by the next
    /// fresh one.
    pub fn insert_product(&mut self, row: ProductRow) -> (id: i32)
        requires
            old(self).wf(),
            old(self).next_product_id < i32::MAX,
        ensures
            final(self).wf(),
            id == old(self).next_product_id,
            final(self).products@ == old(self).products@.push((ProductRow { id, ..row })),
            final(self).next_product_id == old(self).next_product_id + 1,
            same_users(*old(self), *final(self)),
            same_admins(*old(self), *final(self)),
            same_businesses(*old(self), *final(self)),
            same_drones(*old(self), *final(self)),
            same_orders(*old(self), *final(self)),
            same_locations(*old(self), *final(self)),
            same_trips(*old(self), *final(self)),
            same_stats(*old(self), *final(self)),
    {
        let id = self.next_product_id;
        let mut r = row;
        r.id = id;
        self.products.push(r);
        self.next_product_id = id + 1;
        id
    }

    /// Replaces the product row at `ix`, keeping its id.
    pub fn set_product(&mut self, ix: usize, row: ProductRow)
        requires
            old(self).wf(),
            ix < old(self).products@.len(),
            row.id == old(self).products@[ix as int].id,
        ensures
            final(self).wf(),
            final(self).products@ == old(self).products@.update(ix as int, row),
            final(self).next_product_id == old(self).next_product_id,
            same_users(*old(self), *final(self)),
            same_admins(*old(self), *final(self)),
            same_businesses(*old(self), *final(self)),
            same_drones(*old(self), *final(self)),
            same_orders(*old(self), *final(self)),
            same_locations(*old(self), *final(self)),
            same_trips(*old(self), *final(self)),
            same_stats(*old(self), *final(self)),
    {
        self.products[ix] = row;
    }

    /// Inserts `row` as a fresh drone: its id is replaced by the next fresh
    /// one.  The caller has ruled the drone number out as taken.
    pub fn insert_drone(&mut self, row: DroneRow) -> (id: i32)
        requires
            old(self).wf(),
            old(self).next_drone_id < i32::MAX,
            !old(self).has_drone_number(row.number as int),
        ensures
            final(self).wf(),
            id == old(self).next_drone_id,
            final(self).drones@ == old(self).drones@.push((DroneRow { id, ..row })),
            final(self).next_drone_id == old(self).next_drone_id + 1,
            same_users(*old(self), *final(self)),
            same_admins(*old(self), *final(self)),
            same_businesses(*old(self), *final(self)),
            same_products(*old(self), *final(self)),
            same_orders(*old(self), *final(self)),
            same_locations(*old(self), *final(self)),
            same_trips(*old(self), *final(self)),
            same_stats(*old(self), *final(self)),
    {
        let id = self.next_drone_id;
        let mut r = row;
        r.id = id;
        self.drones.push(r);
        self.next_drone_id = id + 1;
        id
    }

    /// Replaces the drone row at `ix`, keeping its id and number.
    pub fn set_drone(&mut self, ix: usize, row: DroneRow)
        requires
            old(self).wf(),
            ix < old(self).drones@.len(),
            row.id == old(self).drones@[ix as int].id,
            row.number == old(self).drones@[ix as int].number,
        ensures
            final(self).wf(),
            final(self).drones@ == old(self).drones@.update(ix as int, row),
            final(self).next_drone_id == old(self).next_drone_id,
            same_users(*old(self), *final(self)),
            same_admins(*old(self), *final(self)),
            same_businesses(*old(self), *final(self)),
            same_products(*old(self), *final(self)),
            same_orders(*old(self), *final(self)),
            same_locations(*old(self), *final(self)),
            same_trips(*old(self), *final(self)),
            same_stats(*old(self), *final(self)),
    {
        self.drones[ix] = row;
    }

    /// Inserts `row` as a fresh location: its id is replaced by the next
    /// fresh one.
    pub fn insert_location(&mut self, row: LocationRow) -> (id: i32)
        requires
            old(self).wf(),
            old(self).next_location_id < i32::MAX,
        ensures
            final(self).wf(),
            id == old(self).next_location_id,
            final(self).locations@ == old(self).locations@.push((LocationRow { id, ..row })),
            final(self).next_location_id == old(self).next_location_id + 1,
            same_users(*old(self), *final(self)),
            same_admins(*old(self), *final(self)),
            same_businesses(*old(self), *final(self)),
            same_products(*old(self), *final(self)),
            same_drones(*old(self), *final(self)),
            same_orders(*old(self), *final(self)),
            same_trips(*old(self), *final(self)),
            same_stats(*old(self), *final(self)),
    {
        let id = self.next_location_id;
        let mut r = row;
        r.id = id;
        self.locations.push(r);
        self.next_location_id = id + 1;
        id
    }

    /// Inserts `row` as a fresh trip: its id is replaced by the next fresh
    /// one.
    pub fn insert_trip(&mut self, row: TripRow) -> (id: i32)
        requires
            old(self).wf(),
            old(self).next_trip_id < i32::MAX,
        ensures
            final(self).wf(),
            id == old(self).next_trip_id,
            final(self).trips@ == old(self).trips@.push((TripRow { id, ..row })),
            final(self).next_trip_id == old(self).next_trip_id + 1,
            same_users(*old(self), *final(self)),
            same_admins(*old(self), *final(self)),
            same_businesses(*old(self), *final(self)),
            same_products(*old(self), *final(self)),
            same_drones(*old(self), *final(self)),
            same_orders(*old(self), *final(self)),
            same_locations(*old(self), *final(self)),
            same_stats(*old(self), *final(self)),
    {
        let id = self.next_trip_id;
        let mut r = row;
        r.id = id;
        self.trips.push(r);
        self.next_trip_id = id + 1;
        id
    }
}

/// Pushing a user with the fresh id and a fresh username keeps the user
/// table well-formed.
proof fn lemma_push_keeps_users_wf(pre: Store, post: Store)
    requires
        pre.wf(),
        pre.next_user_id < i32::MAX,
        post.users@.len() == pre.users@.len() + 1,
        post.users@.drop_last() == pre.users@,
        post.users@.last().id == pre.next_user_id,
        !pre.has_username(post.users@.last().username@),
        post.next_user_id == pre.next_user_id + 1,
    ensures
        post.users_wf(),
{
    assert forall|p: int, q: int|
        0 <= p < q < post.users@.len() implies (#[trigger] post.users@[p]).id != (
    #[trigger] post.users@[q]).id by {
        if q < post.users@.len() - 1 {
            assert(pre.users@[p].id != pre.users@[q].id);
        } else {
            assert(post.users@[p] == pre.users@[p]);
            assert(pre.users@[p].id < pre.next_user_id);
        }
    }
    assert forall|p: int, q: int|
        0 <= p < q < post.users@.len() implies (#[trigger] post.users@[p]).username@ != (
    #[trigger] post.users@[q]).username@ by {
        if q < post.users@.len() - 1 {
            assert(pre.users@[p].username@ != pre.users@[q].username@);
        } else {
            assert(post.users@[p] == pre.users@[p]);
        }
    }
    assert forall|p: int| 0 <= p < post.users@.len() implies (#[trigger] post.users@[p]).id
        < post.next_user_id by {
        if p < post.users@.len() - 1 {
            assert(post.users@[p] == pre.users@[p]);
            assert(pre.users@[p].id < pre.next_user_id);
        }
    }
}

/// Replacing a user row by one with the same id and username keeps the user
/// table well-formed.
proof fn lemma_update_keeps_users_wf(pre: Store, post: Store, ix: int)
    requires
        pre.wf(),
        0 <= ix < pre.users@.len(),
        post.users@ == pre.users@.update(ix, post.users@[ix]),
        post.users@[ix].id == pre.users@[ix].id,
        post.users@[ix].username@ == pre.users@[ix].username@,
        post.next_user_id == pre.next_user_id,
    ensures
        post.users_wf(),
{
    assert forall|p: int, q: int|
        0 <= p < q < post.users@.len() implies (#[trigger] post.users@[p]).id != (
    #[trigger] post.users@[q]).id by {
        assert(pre.users@[p].id != pre.users@[q].id);
    }
    assert forall|p: int, q: int|
        0 <= p < q < post.users@.len() implies (#[trigger] post.users@[p]).username@ != (
    #[trigger] post.users@[q]).username@ by {
        assert(pre.users@[p].username@ != pre.users@[q].username@);
    }
    assert forall|p: int| 0 <= p < post.users@.len() implies (#[trigger] post.users@[p]).id
        < post.next_user_id by {
        assert(pre.users@[p].id < pre.next_user_id);
    }
}

// --- frame predicates: which parts of the store two states agree on --------

pub open spec fn same_users(a: Store, b: Store) -> bool {
    a.users == b.users && a.next_user_id == b.next_user_id
}

pub open spec fn same_admins(a: Store, b: Store) -> bool {
    a.admins == b.admins
}

pub open spec fn same_businesses(a: Store, b: Store) -> bool {
    a.businesses == b.businesses && a.next_business_id == b.next_business_id
}

pub open spec fn same_products(a: Store, b: Store) -> bool {
    a.products == b.products && a.next_product_id == b.next_product_id
}

pub open spec fn same_drones(a: Store, b: Store) -> bool {
    a.drones == b.drones && a.next_drone_id == b.next_drone_id
}

pub open spec fn same_orders(a: Store, b: Store) -> bool {
    a.orders == b.orders && a.next_order_id == b.next_order_id
}

pub open spec fn same_locations(a: Store, b: Store) -> bool {
    a.locations == b.locations && a.next_location_id == b.next_location_id
}

pub open spec fn same_trips(a: Store, b: Store) -> bool {
    a.trips == b.trips && a.next_trip_id == b.next_trip_id
}

pub open spec fn same_stats(a: Store, b: Store) -> bool {
    a.stats == b.stats
}

} // verus!
