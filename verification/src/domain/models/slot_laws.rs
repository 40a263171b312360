use crate::domain::error::Error;
use crate::domain::models::reservation::Reservation;
use crate::domain::models::service::Service;
use crate::domain::models::slot::SlotView;
use crate::domain::models::user::{User, UserID};
use vstd::prelude::*;

verus! {

/// What becomes of `slot` when the users `users` reserve one after the other,
/// each for the service at the same position of `services`: the slot after
/// the last of them, or the first refusal.
pub open spec fn reserve_all(slot: SlotView, users: Seq<User>, services: Seq<Service>) -> Result<
    SlotView,
    Error,
>
    decreases users.len(),
{
    if users.len() == 0 {
        Ok(slot)
    } else {
        match reserve_all(slot, users.drop_last(), services.drop_last()) {
            Ok(earlier) => earlier.reserve(users.last(), services.last()),
            Err(e) => Err(e),
        }
    }
}

/// Whether no two of `users` share an identity.
pub open spec fn distinct_identities(users: Seq<User>) -> bool {
    forall|i: int, j: int|
        0 <= i < j < users.len() ==> (#[trigger] users[i]).id_spec() != (#[trigger] users[j]).id_spec()
}

/// Users who hold no reservation in a slot and differ from one another all
/// get a seat as long as their number does not exceed the free seats; the
/// slot then holds them after those it held, in their order.
pub proof fn lemma_reserve_while_seats_free(
    slot: SlotView,
    users: Seq<User>,
    services: Seq<Service>,
)
    requires
        slot.wf(),
        users.len() == services.len(),
        slot.reservations.len() + users.len() <= slot.max_size,
        distinct_identities(users),
        forall|i: int| 0 <= i < users.len() ==> !slot.holds((#[trigger] users[i]).id_spec()),
    ensures
        reserve_all(slot, users, services) matches Ok(after) && after.wf() && after.interval
            == slot.interval && after.max_size == slot.max_size && after.reservations.len()
            == slot.reservations.len() + users.len() && (forall|i: int|
            0 <= i < slot.reservations.len() ==> after.reservations[i] == slot.reservations[i])
            && (forall|i: int|
            0 <= i < users.len() ==> (#[trigger] after.reservations[slot.reservations.len() + i]).by_spec()
                == users[i] && after.reservations[slot.reservations.len() + i].service_spec()
                == services[i]),
    decreases users.len(),
{
    if users.len() > 0 {
        let n = users.len() - 1;
        let earlier_users = users.drop_last();
        let earlier_services = services.drop_last();
        assert forall|i: int| 0 <= i < earlier_users.len() implies !slot.holds(
            (#[trigger] earlier_users[i]).id_spec(),
        ) by {
            assert(earlier_users[i] == users[i]);
        }
        assert(distinct_identities(earlier_users)) by {
            assert forall|i: int, j: int| 0 <= i < j < earlier_users.len() implies (
            #[trigger] earlier_users[i]).id_spec() != (#[trigger] earlier_users[j]).id_spec() by {
                assert(earlier_users[i] == users[i]);
                assert(earlier_users[j] == users[j]);
            }
        }
        lemma_reserve_while_seats_free(slot, earlier_users, earlier_services);
        let earlier = reserve_all(slot, earlier_users, earlier_services)->Ok_0;
        let user = users.last();
        let base = slot.reservations.len();
        assert(!earlier.holds(user.id_spec())) by {
            if earlier.holds(user.id_spec()) {
                let k = choose|k: int|
                    0 <= k < earlier.reservations.len() && earlier.user_at(k) == user.id_spec();
                if k < base {
                    assert(earlier.reservations[k] == slot.reservations[k]);
                    assert(slot.user_at(k) == user.id_spec());
                    assert(slot.holds(users[n].id_spec()));
                } else {
                    assert(earlier.reservations[base + (k - base)].by_spec() == earlier_users[k
                        - base]);
                    assert(earlier_users[k - base] == users[k - base]);
                    assert(users[k - base].id_spec() != users[n].id_spec());
                }
            }
        }
        let after = earlier.reserve(user, services.last())->Ok_0;
        assert(after.distinct_users()) by {
            assert forall|i: int, j: int| 0 <= i < j < after.reservations.len() implies after.user_at(
                i,
            ) != after.user_at(j) by {
                if j == earlier.reservations.len() {
                    assert(earlier.user_at(i) != user.id_spec());
                } else {
                    assert(earlier.user_at(i) != earlier.user_at(j));
                }
            }
        }
        assert forall|i: int| 0 <= i < users.len() implies (#[trigger] after.reservations[base
            + i]).by_spec() == users[i] && after.reservations[base + i].service_spec()
            == services[i] by {
            if i < n {
                assert(after.reservations[base + i] == earlier.reservations[base + i]);
                assert(earlier_users[i] == users[i]);
                assert(earlier_services[i] == services[i]);
            }
        }
    }
}

/// An empty slot takes as many users, all different, as it has seats, one
/// after the other, and refuses the next one with `MaxCapacityExceeded` of
/// its number of seats.
pub proof fn lemma_reserve_until_full(slot: SlotView, users: Seq<User>, services: Seq<Service>)
    requires
        slot.reservations.len() == 0,
        users.len() == slot.max_size + 1,
        services.len() == users.len(),
        distinct_identities(users),
    ensures
        forall|k: int|
            0 <= k <= slot.max_size ==> (#[trigger] reserve_all(
                slot,
                users.take(k),
                services.take(k),
            ) matches Ok(after) && after.reservations.len() == k),
        reserve_all(slot, users, services) == Err::<SlotView, Error>(
            Error::MaxCapacityExceeded(slot.max_size),
        ),
{
    assert forall|k: int| 0 <= k <= slot.max_size implies (#[trigger] reserve_all(
        slot,
        users.take(k),
        services.take(k),
    ) matches Ok(after) && after.reservations.len() == k) by {
        lemma_take_distinct(users, k);
        lemma_reserve_while_seats_free(slot, users.take(k), services.take(k));
    }
    let n = slot.max_size as int;
    assert(users.drop_last() =~= users.take(n));
    assert(services.drop_last() =~= services.take(n));
    lemma_take_distinct(users, n);
    lemma_reserve_while_seats_free(slot, users.take(n), services.take(n));
}

/// The first `k` of users who all differ also all differ.
proof fn lemma_take_distinct(users: Seq<User>, k: int)
    requires
        distinct_identities(users),
        0 <= k <= users.len(),
    ensures
        distinct_identities(users.take(k)),
{
    assert forall|i: int, j: int| 0 <= i < j < users.take(k).len() implies (#[trigger] users.take(
        k,
    )[i]).id_spec() != (#[trigger] users.take(k)[j]).id_spec() by {
        assert(users.take(k)[i] == users[i]);
        assert(users.take(k)[j] == users[j]);
    }
}

/// What the slot is after `user` asked for a seat: with the reservation, or
/// as it was where the seat was refused.
pub open spec fn after_reserve(slot: SlotView, user: User, service: Service) -> SlotView {
    match slot.reserve(user, service) {
        Ok(after) => after,
        Err(_) => slot,
    }
}

/// A user who asks twice for a seat in a slot is refused the second time with
/// `SlotAlreadyReserved`, provided that a seat is still free after the first
/// request: a full slot refuses everyone with `MaxCapacityExceeded`.
pub proof fn lemma_reserve_twice(slot: SlotView, user: User, first: Service, second: Service)
    requires
        !after_reserve(slot, user, first).is_full(),
    ensures
        after_reserve(slot, user, first).reserve(user, second) == Err::<SlotView, Error>(
            Error::SlotAlreadyReserved(user.id_spec()),
        ),
{
    let after = after_reserve(slot, user, first);
    if slot.reserve(user, first) is Ok {
        let last = slot.reservations.len() as int;
        assert(after.user_at(last) == user.id_spec());
    }
}

/// Cancelling for a user who holds no reservation fails with
/// `UserNotReserved`. Cancelling for one who does removes that one
/// reservation: the slot holds one fewer, the user none, and every other
/// reservation stays, in the same order.
pub proof fn lemma_cancel(slot: SlotView, id: UserID)
    requires
        slot.wf(),
    ensures
        !slot.holds(id) ==> slot.cancel(id) == Err::<SlotView, Error>(Error::UserNotReserved(id)),
        slot.holds(id) ==> (slot.cancel(id) matches Ok(after) && after.wf() && !after.holds(id)
            && after.interval == slot.interval && after.max_size == slot.max_size
            && after.reservations.len() == slot.reservations.len() - 1 && slot.user_at(
            slot.position(id),
        ) == id && (forall|i: int|
            0 <= i < slot.position(id) ==> after.reservations[i] == slot.reservations[i])
            && (forall|i: int|
            slot.position(id) <= i < after.reservations.len() ==> after.reservations[i]
                == slot.reservations[i + 1])),
{
    if slot.holds(id) {
        let k = choose|k: int| 0 <= k < slot.reservations.len() && slot.user_at(k) == id;
        lemma_first_position(slot, id, k);
        let p = slot.position(id);
        let after = slot.cancel(id)->Ok_0;
        assert forall|i: int, j: int| 0 <= i < j < after.reservations.len() implies after.user_at(i)
            != after.user_at(j) by {
            let i0 = if i < p { i } else { i + 1 };
            let j0 = if j < p { j } else { j + 1 };
            assert(slot.user_at(i0) != slot.user_at(j0));
        }
        if after.holds(id) {
            let m = choose|m: int| 0 <= m < after.reservations.len() && after.user_at(m) == id;
            let m0 = if m < p { m } else { m + 1 };
            assert(slot.user_at(m0) == id);
            if m0 < p {
                assert(slot.user_at(m0) != slot.user_at(p));
            } else {
                assert(slot.user_at(p) != slot.user_at(m0));
            }
        }
    }
}

/// A user who holds a reservation holds a first one.
proof fn lemma_first_position(slot: SlotView, id: UserID, k: int)
    requires
        0 <= k < slot.reservations.len(),
        slot.user_at(k) == id,
    ensures
        0 <= slot.position(id) < slot.reservations.len(),
        slot.user_at(slot.position(id)) == id,
        forall|j: int| 0 <= j < slot.position(id) ==> slot.user_at(j) != id,
    decreases k,
{
    if exists|j: int| 0 <= j < k && slot.user_at(j) == id {
        let j = choose|j: int| 0 <= j < k && slot.user_at(j) == id;
        lemma_first_position(slot, id, j);
    } else {
        assert(0 <= k < slot.reservations.len() && slot.user_at(k) == id && forall|j: int|
            0 <= j < k ==> slot.user_at(j) != id);
    }
}

} // verus!
