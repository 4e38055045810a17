//! What holds of every pass over a list of endpoints, whatever the operating
//! system answers.
//!
//! An [`Attempt`] says how each of one endpoint's operations would end.
//! Feeding a manager the answers for one endpoint after the other, each
//! endpoint's fate depends on its own attempt alone.

use crate::addr::SocketAddress;
use crate::sockets::{
    join_for, socket_for, BindStage, BoundSocket, MulticastJoin, SocketAction, SocketManagerView,
};
use vstd::prelude::*;

verus! {

/// How the operations on one endpoint would end, each taken alone.
pub struct Attempt {
    pub bind: bool,
    pub nonblocking: bool,
    pub join: bool,
}

/// Whether an endpoint at `address` passes all the operations it needs:
/// bind, non-blocking, and the join if the address is a multicast group.
pub open spec fn admitted(address: SocketAddress, attempt: Attempt) -> bool {
    &&& attempt.bind
    &&& attempt.nonblocking
    &&& address.ip.spec_is_multicast() ==> attempt.join
}

/// The sockets of the admitted endpoints from `from` on, in the order of the
/// list.
pub open spec fn admitted_from(
    addresses: Seq<SocketAddress>,
    attempts: Seq<Attempt>,
    from: int,
) -> Seq<BoundSocket>
    decreases addresses.len() - from,
{
    if from < 0 || from >= addresses.len() {
        Seq::empty()
    } else if admitted(addresses[from], attempts[from]) {
        seq![socket_for(addresses, from)] + admitted_from(addresses, attempts, from + 1)
    } else {
        admitted_from(addresses, attempts, from + 1)
    }
}

impl SocketManagerView {
    /// The manager after the current endpoint's operations have been
    /// answered as `attempt` says, up to the first that fails.
    pub open spec fn settle(self, attempt: Attempt) -> SocketManagerView {
        let bound = self.after(attempt.bind);
        if !attempt.bind {
            bound
        } else {
            let unblocked = bound.after(attempt.nonblocking);
            if !attempt.nonblocking || !self.addresses[self.cursor as int].ip.spec_is_multicast() {
                unblocked
            } else {
                unblocked.after(attempt.join)
            }
        }
    }

    /// The manager after the endpoints from `from` on have been settled by
    /// their attempts, in order.
    pub open spec fn settle_from(self, attempts: Seq<Attempt>, from: int) -> SocketManagerView
        decreases attempts.len() - from,
    {
        if from < 0 || from >= attempts.len() {
            self
        } else {
            self.settle(attempts[from]).settle_from(attempts, from + 1)
        }
    }
}

/// A manager starts well-formed and every report keeps it so. A failure
/// touches nothing but the endpoint in hand: the sockets kept before stay
/// as they are, and the next endpoint is taken up.
pub proof fn reports_keep_order(m: SocketManagerView, succeeded: bool)
    requires
        m.wf(),
    ensures
        SocketManagerView::initial(m.addresses).wf(),
        m.after(succeeded).wf(),
        m.after(succeeded).addresses == m.addresses,
        m.bound.is_prefix_of(m.after(succeeded).bound),
        !m.finished() && !succeeded ==> m.after(succeeded).bound == m.bound && m.after(
            succeeded,
        ).cursor == m.cursor + 1 && m.after(succeeded).stage == BindStage::Binding,
{
    let after = m.after(succeeded);
    if !m.finished() && succeeded && m.at_last_operation() {
        let socket = socket_for(m.addresses, m.cursor as int);
        assert forall|i: int, j: int| 0 <= i < j < after.bound.len() implies (
        #[trigger] after.bound[i]).endpoint < (#[trigger] after.bound[j]).endpoint by {
            if j == m.bound.len() {
                assert(m.bound[i].endpoint < m.cursor);
            } else {
                assert(m.bound[i].endpoint < m.bound[j].endpoint);
            }
        }
    }
}

/// Of every socket a manager holds: it is non-blocking, and it is a member
/// of a multicast group exactly if its address is one. While an endpoint
/// waits to join, the group asked for is its own address and the interface
/// the wildcard.
pub proof fn membership_follows_address(m: SocketManagerView, j: int)
    requires
        m.wf(),
    ensures
        0 <= j < m.bound.len() ==> m.bound[j].nonblocking && m.bound[j].multicast_joined
            == m.bound[j].address.ip.spec_is_multicast() && m.bound[j].address
            == m.addresses[m.bound[j].endpoint as int],
        m.next_action() matches SocketAction::JoinMulticast { endpoint, join } ==> join
            != MulticastJoin::NotNeeded && join == join_for(m.addresses[endpoint as int].ip),
{
    if 0 <= j < m.bound.len() {
        assert(m.bound[j] == socket_for(m.addresses, m.bound[j].endpoint as int));
    }
}

/// Settling one endpoint keeps the sockets gathered so far, adds the
/// endpoint's own socket exactly if its attempt is admitted, and takes up
/// the next endpoint, whatever the attempt was.
pub proof fn one_endpoint_settles_alone(m: SocketManagerView, attempt: Attempt)
    requires
        m.wf(),
        !m.finished(),
        m.stage == BindStage::Binding,
    ensures
        m.settle(attempt).wf(),
        m.settle(attempt).addresses == m.addresses,
        m.settle(attempt).cursor == m.cursor + 1,
        m.settle(attempt).stage == BindStage::Binding,
        m.settle(attempt).bound == (if admitted(m.addresses[m.cursor as int], attempt) {
            m.bound.push(socket_for(m.addresses, m.cursor as int))
        } else {
            m.bound
        }),
{
    let bound = m.after(attempt.bind);
    reports_keep_order(m, attempt.bind);
    if attempt.bind {
        let unblocked = bound.after(attempt.nonblocking);
        reports_keep_order(bound, attempt.nonblocking);
        if attempt.nonblocking && m.addresses[m.cursor as int].ip.spec_is_multicast() {
            reports_keep_order(unblocked, attempt.join);
        }
    }
}

/// Independence: when every endpoint of a list has been settled, the
/// manager holds the sockets of exactly the admitted endpoints, in the order
/// of the list. An endpoint that fails neither removes nor prevents any
/// other.
pub proof fn endpoints_settle_independently(m: SocketManagerView, attempts: Seq<Attempt>)
    requires
        m.wf(),
        m.stage == BindStage::Binding,
        attempts.len() == m.addresses.len(),
    ensures
        m.settle_from(attempts, m.cursor as int).finished(),
        m.settle_from(attempts, m.cursor as int).wf(),
        m.settle_from(attempts, m.cursor as int).bound == m.bound + admitted_from(
            m.addresses,
            attempts,
            m.cursor as int,
        ),
    decreases m.addresses.len() - m.cursor,
{
    if m.cursor < m.addresses.len() {
        let next = m.settle(attempts[m.cursor as int]);
        one_endpoint_settles_alone(m, attempts[m.cursor as int]);
        endpoints_settle_independently(next, attempts);
        assert(m.settle_from(attempts, m.cursor as int).bound =~= m.bound + admitted_from(
            m.addresses,
            attempts,
            m.cursor as int,
        ));
    } else {
        assert(m.bound + admitted_from(m.addresses, attempts, m.cursor as int) =~= m.bound);
    }
}

/// Among the sockets of the admitted endpoints from `from` on, endpoint `i`
/// has a socket exactly if its own attempt is admitted.
pub proof fn admitted_exactly_when_own_attempt_passes(
    addresses: Seq<SocketAddress>,
    attempts: Seq<Attempt>,
    from: int,
    i: int,
)
    requires
        0 <= from <= i < addresses.len() <= usize::MAX,
    ensures
        admitted(addresses[i], attempts[i]) <==> exists|j: int|
            0 <= j < admitted_from(addresses, attempts, from).len() && #[trigger] admitted_from(
                addresses,
                attempts,
                from,
            )[j].endpoint == i,
        forall|j: int|
            0 <= j < admitted_from(addresses, attempts, from).len() ==> from <= (
            #[trigger] admitted_from(addresses, attempts, from)[j]).endpoint < addresses.len(),
    decreases addresses.len() - from,
{
    let here = admitted_from(addresses, attempts, from);
    let rest = admitted_from(addresses, attempts, from + 1);
    if from + 1 < addresses.len() {
        admitted_exactly_when_own_attempt_passes(
            addresses,
            attempts,
            from + 1,
            if i == from {
                from + 1
            } else {
                i
            },
        );
    }
    let first_in = admitted(addresses[from], attempts[from]);
    let shift: int = if first_in {
        1
    } else {
        0
    };
    assert(here.len() == rest.len() + shift);
    assert forall|j: int| 0 <= j < rest.len() implies here[j + shift] == rest[j] by {}
    assert forall|j: int| 0 <= j < here.len() implies from <= (#[trigger] here[j]).endpoint
        < addresses.len() by {
        if j >= shift {
            assert(here[j] == rest[j - shift]);
        }
    }
    if i == from {
        if first_in {
            assert(here[0].endpoint == i);
        }
    } else {
        if admitted(addresses[i], attempts[i]) {
            let j = choose|j: int| 0 <= j < rest.len() && #[trigger] rest[j].endpoint == i;
            assert(here[j + shift].endpoint == i);
        }
        if exists|j: int| 0 <= j < here.len() && #[trigger] here[j].endpoint == i {
            let j = choose|j: int| 0 <= j < here.len() && #[trigger] here[j].endpoint == i;
            assert(j >= shift);
            assert(rest[j - shift].endpoint == i);
        }
    }
}

} // verus!
