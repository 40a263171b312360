use crate::domain::error::Error;
use crate::domain::models::interval::Interval;
use crate::domain::models::reservation::Reservation;
use crate::domain::models::service::Service;
use crate::domain::models::user::{User, UserID};
use crate::time::Instant;
use vstd::prelude::*;

verus! {

/// What a slot is, as plain values: its interval, its number of seats and the
/// reservations it holds, in the order in which they were made.
pub struct SlotView {
    pub interval: Interval,
    pub max_size: usize,
    pub reservations: Seq<Reservation>,
}

impl SlotView {
    /// The user who holds the reservation at position `i`.
    pub open spec fn user_at(self, i: int) -> UserID {
        self.reservations[i].by_spec().id_spec()
    }

    /// Whether the user `id` holds a reservation.
    pub open spec fn holds(self, id: UserID) -> bool {
        exists|i: int| 0 <= i < self.reservations.len() && self.user_at(i) == id
    }

    /// No two reservations belong to the same user.
    pub open spec fn distinct_users(self) -> bool {
        forall|i: int, j: int|
            0 <= i < j < self.reservations.len() ==> self.user_at(i) != self.user_at(j)
    }

    /// No more reservations than seats, and no user twice.
    pub open spec fn wf(self) -> bool {
        self.reservations.len() <= self.max_size && self.distinct_users()
    }

    /// Whether every seat is taken.
    pub open spec fn is_full(self) -> bool {
        self.reservations.len() >= self.max_size
    }

    /// The position of the first reservation that belongs to `id`.
    pub open spec fn position(self, id: UserID) -> int {
        choose|i: int|
            0 <= i < self.reservations.len() && self.user_at(i) == id && forall|j: int|
                0 <= j < i ==> self.user_at(j) != id
    }

    /// The slot with these reservations in place of its own.
    pub open spec fn with_reservations(self, reservations: Seq<Reservation>) -> SlotView {
        SlotView { interval: self.interval, max_size: self.max_size, reservations }
    }

    /// What `reserve` makes of the slot: the slot with one reservation more at
    /// the end, or the reason why the seat is refused.
    pub open(crate) spec fn reserve(self, user: User, service: Service) -> Result<SlotView, Error> {
        if self.is_full() {
            Err(Error::MaxCapacityExceeded(self.max_size))
        } else if self.holds(user.id_spec()) {
            Err(Error::SlotAlreadyReserved(user.id_spec()))
        } else {
            Ok(self.with_reservations(self.reservations.push(Reservation { by: user, service })))
        }
    }

    /// What `cancel` makes of the slot: the slot without the reservation of
    /// `id`, or the reason why nothing is cancelled.
    pub open spec fn cancel(self, id: UserID) -> Result<SlotView, Error> {
        if self.holds(id) {
            Ok(self.with_reservations(self.reservations.remove(self.position(id))))
        } else {
            Err(Error::UserNotReserved(id))
        }
    }
}

/// One appointment window: an interval of one day, a number of seats, and the
/// reservations that take them.
#[derive(Debug, PartialEq)]
pub struct Slot {
    pub(crate) interval: Interval,
    pub(crate) reservations: Vec<Reservation>,
    pub(crate) max_size: usize,
}

impl View for Slot {
    type V = SlotView;

    open(crate) spec fn view(&self) -> SlotView {
        SlotView {
            interval: self.interval,
            max_size: self.max_size,
            reservations: self.reservations@,
        }
    }
}

impl Clone for Slot {
    fn clone(&self) -> (r: Self)
        ensures
            r@ == self@,
    {
        proof {
            use_type_invariant(self);
        }
        let mut reservations: Vec<Reservation> = Vec::with_capacity(self.max_size);
        let mut i: usize = 0;
        while i < self.reservations.len()
            invariant
                i <= self.reservations.len(),
                reservations@ == self.reservations@.take(i as int),
            decreases self.reservations.len() - i,
        {
            reservations.push(self.reservations[i].clone());
            i += 1;
            assert(reservations@ =~= self.reservations@.take(i as int));
        }
        assert(reservations@ =~= self.reservations@);
        Slot { interval: self.interval, reservations, max_size: self.max_size }
    }
}

/// Whether one of the first `n` reservations of `rs` belongs to `id`.
pub open spec fn user_among(rs: Seq<Reservation>, n: int, id: UserID) -> bool {
    exists|i: int| 0 <= i < n && #[trigger] rs[i].by_spec().id_spec() == id
}

/// Whether no two of the first `n` reservations of `rs` belong to the same
/// user.
pub open spec fn distinct_among(rs: Seq<Reservation>, n: int) -> bool {
    forall|i: int, j: int|
        0 <= i < j < n ==> #[trigger] rs[i].by_spec().id_spec() != #[trigger] rs[j].by_spec().id_spec()
}

/// Whether the reservation at position `j` of `rs` is the first whose user
/// already holds an earlier one.
pub open spec fn first_repeat(rs: Seq<Reservation>, j: int) -> bool {
    0 <= j < rs.len() && distinct_among(rs, j) && user_among(rs, j, rs[j].by_spec().id_spec())
}

impl Slot {
    /// The interval is valid, there are no more reservations than seats, and
    /// no user holds two.
    #[verifier::type_invariant]
    pub open(crate) spec fn is_valid(&self) -> bool {
        self.interval.is_valid() && self@.wf()
    }

    /// A slot over `interval` with `size` seats, all free.
    pub fn empty(interval: Interval, size: usize) -> (r: Slot)
        ensures
            r@.interval == interval,
            r@.max_size == size,
            r@.reservations == Seq::<Reservation>::empty(),
            r.is_valid(),
    {
        proof {
            use_type_invariant(&interval);
        }
        Slot { interval, reservations: Vec::with_capacity(size), max_size: size }
    }

    /// A slot over `interval` with `max_size` seats that holds `reservations`.
    ///
    /// Fails with `MaxCapacityExceeded(max_size)` where there are more
    /// reservations than seats; else with `SlotAlreadyReserved`, naming the
    /// first user who comes a second time, where a user holds two of them.
    pub fn restore(interval: Interval, reservations: &[Reservation], max_size: usize) -> (r: Result<
        Slot,
        Error,
    >)
        ensures
            reservations@.len() > max_size ==> r == Err::<Slot, Error>(
                Error::MaxCapacityExceeded(max_size),
            ),
            reservations@.len() <= max_size && distinct_among(reservations@, reservations@.len() as int)
                ==> (r matches Ok(slot) && slot@.interval == interval && slot@.max_size == max_size
                && slot@.reservations == reservations@ && slot.is_valid()),
            reservations@.len() <= max_size && !distinct_among(
                reservations@,
                reservations@.len() as int,
            ) ==> (r matches Err(Error::SlotAlreadyReserved(id)) && exists|j: int|
                first_repeat(reservations@, j) && id == (#[trigger] reservations@[j]).by_spec().id_spec()),
    {
        proof {
            use_type_invariant(&interval);
        }
        if reservations.len() > max_size {
            return Err(Error::MaxCapacityExceeded(max_size));
        }
        let mut held: Vec<Reservation> = Vec::with_capacity(max_size);
        let mut j: usize = 0;
        while j < reservations.len()
            invariant
                j <= reservations@.len() <= max_size,
                held@ == reservations@.take(j as int),
                distinct_among(reservations@, j as int),
            decreases reservations@.len() - j,
        {
            let id: UserID = reservations[j].by().id();
            let found: Option<usize> = find_user(&held, id);
            if found.is_some() {
                proof {
                    let i: int = found.unwrap() as int;
                    assert(reservations@[i].by_spec().id_spec() == id);
                    assert(user_among(reservations@, j as int, id));
                    assert(first_repeat(reservations@, j as int));
                }
                return Err(Error::SlotAlreadyReserved(id));
            }
            proof {
                assert forall|a: int, b: int| 0 <= a < b < j + 1 implies #[trigger] reservations@[a].by_spec().id_spec()
                    != #[trigger] reservations@[b].by_spec().id_spec() by {
                    if b == j {
                        assert(held@[a] == reservations@[a]);
                    }
                }
            }
            held.push(reservations[j].clone());
            j += 1;
            assert(held@ =~= reservations@.take(j as int));
        }
        assert(held@ =~= reservations@);
        Ok(Slot { interval, reservations: held, max_size })
    }

    /// Takes a seat for `user`, who asks for `service`.
    ///
    /// Fails with `MaxCapacityExceeded` where every seat is taken, else with
    /// `SlotAlreadyReserved` where the user already holds one; the slot is
    /// then left as it was. Otherwise the reservation is added after the
    /// others.
    pub fn reserve(&mut self, user: User, service: Service) -> (r: Result<(), Error>)
        ensures
            match old(self)@.reserve(user, service) {
                Ok(slot) => r is Ok && final(self)@ == slot,
                Err(e) => r == Err::<(), Error>(e) && final(self)@ == old(self)@,
            },
    {
        proof {
            use_type_invariant(&*self);
        }
        if self.reservations.len() >= self.max_size {
            return Err(Error::MaxCapacityExceeded(self.max_size));
        }
        let id: UserID = user.id();
        if let Some(idx) = find_user(&self.reservations, id) {
            assert(old(self)@.user_at(idx as int) == id);
            return Err(Error::SlotAlreadyReserved(id));
        }
        let ghost before: Seq<Reservation> = self.reservations@;
        let reservation: Reservation = Reservation::new(user, service);
        proof {
            let after: Seq<Reservation> = before.push(reservation);
            assert forall|a: int, b: int| 0 <= a < b < after.len() implies after[a].by_spec().id_spec()
                != after[b].by_spec().id_spec() by {
                if b == before.len() {
                    assert(after[a] == before[a]);
                } else {
                    assert(old(self)@.user_at(a) != old(self)@.user_at(b));
                }
            }
        }
        let mut held: Vec<Reservation> = Vec::new();
        core::mem::swap(&mut self.reservations, &mut held);
        held.push(reservation);
        core::mem::swap(&mut self.reservations, &mut held);
        Ok(())
    }

    /// Gives back the seat of the user `id`.
    ///
    /// Fails with `UserNotReserved` where the user holds none; the slot is
    /// then left as it was. Otherwise that one reservation is removed and the
    /// others stay in their order.
    pub fn cancel(&mut self, id: UserID) -> (r: Result<(), Error>)
        ensures
            match old(self)@.cancel(id) {
                Ok(slot) => r is Ok && final(self)@ == slot,
                Err(e) => r == Err::<(), Error>(e) && final(self)@ == old(self)@,
            },
    {
        proof {
            use_type_invariant(&*self);
        }
        match find_user(&self.reservations, id) {
            Some(idx) => {
                proof {
                    let view: SlotView = old(self)@;
                    assert(view.user_at(idx as int) == id);
                    assert(view.position(id) == idx);
                    let after: Seq<Reservation> = view.reservations.remove(idx as int);
                    assert forall|a: int, b: int| 0 <= a < b < after.len() implies after[a].by_spec().id_spec()
                        != after[b].by_spec().id_spec() by {
                        let a0: int = if a < idx { a } else { a + 1 };
                        let b0: int = if b < idx { b } else { b + 1 };
                        assert(view.user_at(a0) != view.user_at(b0));
                    }
                }
                let mut held: Vec<Reservation> = Vec::new();
                core::mem::swap(&mut self.reservations, &mut held);
                held.remove(idx);
                core::mem::swap(&mut self.reservations, &mut held);
                Ok(())
            },
            None => Err(Error::UserNotReserved(id)),
        }
    }

    /// The interval that the slot covers.
    pub fn interval(&self) -> (r: &Interval)
        ensures
            *r == self@.interval,
            r.is_valid(),
    {
        proof {
            use_type_invariant(self);
        }
        &self.interval
    }

    /// The instant at which the slot starts.
    pub fn start(&self) -> (r: Instant)
        ensures
            r == self@.interval.start_spec(),
            r.is_valid(),
    {
        proof {
            use_type_invariant(self);
        }
        *self.interval.start()
    }

    /// The number of seats.
    pub fn max_size(&self) -> (r: usize)
        ensures
            r == self@.max_size,
    {
        self.max_size
    }

    /// Whether no seat is taken.
    pub fn is_empty(&self) -> (r: bool)
        ensures
            r == (self@.reservations.len() == 0),
    {
        self.reservations.len() == 0
    }

    /// The reservations, in the order in which they were made.
    pub fn reservations(&self) -> (r: &[Reservation])
        ensures
            r@ == self@.reservations,
            self@.wf(),
    {
        proof {
            use_type_invariant(self);
        }
        self.reservations.as_slice()
    }

    /// Whether a seat is still free.
    pub fn is_available(&self) -> (r: bool)
        ensures
            r == !self@.is_full(),
    {
        self.reservations.len() < self.max_size
    }

    /// The number of seats that are taken.
    pub fn reserved(&self) -> (r: usize)
        ensures
            r == self@.reservations.len(),
            r <= self@.max_size,
    {
        proof {
            use_type_invariant(self);
        }
        self.reservations.len()
    }
}

/// The position of the first reservation in `reservations` that belongs to
/// `id`.
fn find_user(reservations: &Vec<Reservation>, id: UserID) -> (r: Option<usize>)
    ensures
        match r {
            Some(i) => i < reservations@.len() && reservations@[i as int].by_spec().id_spec() == id
                && forall|j: int| 0 <= j < i ==> reservations@[j].by_spec().id_spec() != id,
            None => forall|j: int|
                0 <= j < reservations@.len() ==> reservations@[j].by_spec().id_spec() != id,
        },
{
    let mut i: usize = 0;
    while i < reservations.len()
        invariant
            i <= reservations@.len(),
            forall|j: int| 0 <= j < i ==> reservations@[j].by_spec().id_spec() != id,
        decreases reservations@.len() - i,
    {
        if reservations[i].by().id() == id {
            return Some(i);
        }
        i += 1;
    }
    None
}

} // verus!
