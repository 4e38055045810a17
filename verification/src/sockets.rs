//! Deciding which endpoints become listening sockets.
//!
//! Each configured endpoint goes through up to three operations on the
//! operating system: bind, switch to non-blocking, and, for a multicast
//! address, join the group on the wildcard interface. The
//! [`SocketManager`] names the next operation, the caller performs it and
//! reports whether it succeeded. An endpoint whose operation fails is
//! dropped and the next endpoint is taken up; one that passes all of its
//! operations is kept as a [`BoundSocket`].

use crate::addr::{IpAddress, Ipv4Address, Ipv6Address, SocketAddress};
use crate::config::ConfSocket;
use vstd::prelude::*;

verus! {

/// The group membership an address calls for.
#[derive(Clone, Copy, Debug, PartialEq, Eq, Structural)]
pub enum MulticastJoin {
    /// The address is no multicast group.
    NotNeeded,
    /// Join `group` on the interface with address `interface`.
    V4 { group: Ipv4Address, interface: Ipv4Address },
    /// Join `group` on the interface with index `interface`.
    V6 { group: Ipv6Address, interface: u32 },
}

/// An endpoint that passed all of its operations.
#[derive(Clone, Copy, Debug, PartialEq, Eq, Structural)]
pub struct BoundSocket {
    /// The place of the endpoint in the configured list.
    pub endpoint: usize,
    pub address: SocketAddress,
    pub nonblocking: bool,
    pub multicast_joined: bool,
}

/// The operation the current endpoint waits for.
#[derive(Clone, Copy, Debug, PartialEq, Eq, Structural)]
pub enum BindStage {
    Binding,
    SettingNonblocking,
    JoiningMulticast,
}

/// What the caller is to do next.
#[derive(Clone, Copy, Debug, PartialEq, Eq, Structural)]
pub enum SocketAction {
    /// Bind a UDP socket for endpoint `endpoint` at `address`.
    Bind { endpoint: usize, address: SocketAddress },
    /// Switch the socket of endpoint `endpoint` to non-blocking.
    SetNonblocking { endpoint: usize },
    /// Have the socket of endpoint `endpoint` join the multicast group the
    /// endpoint is addressed to.
    JoinMulticast { endpoint: usize, join: MulticastJoin },
    /// Every endpoint has been dealt with.
    Finished,
}

/// What one reported result meant for the endpoint it belongs to.
#[derive(Clone, Copy, Debug, PartialEq, Eq, Structural)]
pub enum Progress {
    /// The endpoint has more operations to pass.
    Continue,
    /// The endpoint passed its last operation and is kept.
    Bound(BoundSocket),
    /// The operation failed; the endpoint is dropped and, if a socket was
    /// bound for it, that socket is to be closed.
    Dropped { endpoint: usize },
    /// There was no endpoint left to report on.
    Idle,
}

/// The socket manager as plain mathematics.
pub struct SocketManagerView {
    /// The configured addresses, in order.
    pub addresses: Seq<SocketAddress>,
    /// The endpoint now being dealt with; all before it are settled.
    pub cursor: nat,
    pub stage: BindStage,
    /// The endpoints kept so far.
    pub bound: Seq<BoundSocket>,
}

/// Works through a list of endpoints, one operation at a time.
pub struct SocketManager {
    addresses: Vec<SocketAddress>,
    cursor: usize,
    stage: BindStage,
    bound: Vec<BoundSocket>,
}

/// The membership `ip` calls for: its own group on the wildcard interface
/// (`0.0.0.0` for IPv4, index 0 for IPv6) if it is a multicast address, none
/// otherwise.
pub open spec fn join_for(ip: IpAddress) -> MulticastJoin {
    match ip {
        IpAddress::V4(group) => if group.spec_is_multicast() {
            MulticastJoin::V4 { group, interface: Ipv4Address::spec_unspecified() }
        } else {
            MulticastJoin::NotNeeded
        },
        IpAddress::V6(group) => if group.spec_is_multicast() {
            MulticastJoin::V6 { group, interface: 0 }
        } else {
            MulticastJoin::NotNeeded
        },
    }
}

/// The socket that endpoint `endpoint` becomes when it is kept: non-blocking,
/// and a member of its group exactly if its address is a multicast address.
pub open spec fn socket_for(addresses: Seq<SocketAddress>, endpoint: int) -> BoundSocket {
    BoundSocket {
        endpoint: endpoint as usize,
        address: addresses[endpoint],
        nonblocking: true,
        multicast_joined: addresses[endpoint].ip.spec_is_multicast(),
    }
}

/// The addresses of `endpoints`, in order.
pub open spec fn addresses_of(endpoints: Seq<ConfSocket>) -> Seq<SocketAddress> {
    Seq::new(endpoints.len(), |i: int| endpoints[i].socket)
}

impl SocketManagerView {
    /// The manager for `addresses` before anything has happened.
    pub open spec fn initial(addresses: Seq<SocketAddress>) -> SocketManagerView {
        SocketManagerView { addresses, cursor: 0, stage: BindStage::Binding, bound: Seq::empty() }
    }

    /// Whether every endpoint has been dealt with.
    pub open spec fn finished(self) -> bool {
        self.cursor >= self.addresses.len()
    }

    /// What holds of every state a manager reaches: the kept sockets belong
    /// to settled endpoints, one each at most and in the order of the list;
    /// each is what [`socket_for`] says; and only a multicast address ever
    /// waits to join.
    pub open spec fn wf(self) -> bool {
        &&& self.cursor <= self.addresses.len()
        &&& self.addresses.len() <= usize::MAX
        &&& self.finished() ==> self.stage == BindStage::Binding
        &&& self.stage == BindStage::JoiningMulticast ==> self.addresses[self.cursor
            as int].ip.spec_is_multicast()
        &&& forall|j: int|
            0 <= j < self.bound.len() ==> {
                &&& (#[trigger] self.bound[j]).endpoint < self.cursor
                &&& self.bound[j] == socket_for(self.addresses, self.bound[j].endpoint as int)
            }
        &&& forall|i: int, j: int|
            0 <= i < j < self.bound.len() ==> (#[trigger] self.bound[i]).endpoint < (
            #[trigger] self.bound[j]).endpoint
    }

    /// What the caller is asked to do in this state.
    pub open spec fn next_action(self) -> SocketAction {
        if self.finished() {
            SocketAction::Finished
        } else {
            match self.stage {
                BindStage::Binding => SocketAction::Bind {
                    endpoint: self.cursor as usize,
                    address: self.addresses[self.cursor as int],
                },
                BindStage::SettingNonblocking => SocketAction::SetNonblocking {
                    endpoint: self.cursor as usize,
                },
                BindStage::JoiningMulticast => SocketAction::JoinMulticast {
                    endpoint: self.cursor as usize,
                    join: join_for(self.addresses[self.cursor as int].ip),
                },
            }
        }
    }

    /// The current endpoint is dropped; the next one is taken up.
    pub open spec fn dropped(self) -> SocketManagerView {
        SocketManagerView { cursor: self.cursor + 1, stage: BindStage::Binding, ..self }
    }

    /// The current endpoint is kept; the next one is taken up.
    pub open spec fn kept(self) -> SocketManagerView {
        SocketManagerView {
            cursor: self.cursor + 1,
            stage: BindStage::Binding,
            bound: self.bound.push(socket_for(self.addresses, self.cursor as int)),
            ..self
        }
    }

    /// Whether the operation in hand is the current endpoint's last.
    pub open spec fn at_last_operation(self) -> bool {
        match self.stage {
            BindStage::Binding => false,
            BindStage::SettingNonblocking => join_for(self.addresses[self.cursor as int].ip)
                == MulticastJoin::NotNeeded,
            BindStage::JoiningMulticast => true,
        }
    }

    /// The state after the operation in hand is reported as succeeded or
    /// failed. A failure drops the current endpoint and nothing else.
    pub open spec fn after(self, succeeded: bool) -> SocketManagerView {
        if self.finished() {
            self
        } else if !succeeded {
            self.dropped()
        } else if self.at_last_operation() {
            self.kept()
        } else {
            match self.stage {
                BindStage::Binding => SocketManagerView {
                    stage: BindStage::SettingNonblocking,
                    ..self
                },
                _ => SocketManagerView { stage: BindStage::JoiningMulticast, ..self },
            }
        }
    }

    /// What the report means for the current endpoint.
    pub open spec fn progress(self, succeeded: bool) -> Progress {
        if self.finished() {
            Progress::Idle
        } else if !succeeded {
            Progress::Dropped { endpoint: self.cursor as usize }
        } else if self.at_last_operation() {
            Progress::Bound(socket_for(self.addresses, self.cursor as int))
        } else {
            Progress::Continue
        }
    }
}

impl View for SocketManager {
    type V = SocketManagerView;

    closed spec fn view(&self) -> SocketManagerView {
        SocketManagerView {
            addresses: self.addresses@,
            cursor: self.cursor as nat,
            stage: self.stage,
            bound: self.bound@,
        }
    }
}

/// The membership to establish for a socket bound to `ip`.
pub fn multicast_join(ip: &IpAddress) -> (join: MulticastJoin)
    ensures
        join == join_for(*ip),
{
    match ip {
        IpAddress::V4(group) => {
            if group.is_multicast() {
                MulticastJoin::V4 { group: *group, interface: Ipv4Address::unspecified() }
            } else {
                MulticastJoin::NotNeeded
            }
        },
        IpAddress::V6(group) => {
            if group.is_multicast() {
                MulticastJoin::V6 { group: *group, interface: 0 }
            } else {
                MulticastJoin::NotNeeded
            }
        },
    }
}

impl SocketManager {
    /// A manager for `endpoints`, about to bind the first of them.
    pub fn new(endpoints: &Vec<ConfSocket>) -> (manager: SocketManager)
        ensures
            manager@ == SocketManagerView::initial(addresses_of(endpoints@)),
            manager@.wf(),
    {
        let mut addresses: Vec<SocketAddress> = Vec::new();
        let mut i: usize = 0;
        while i < endpoints.len()
            invariant
                i <= endpoints.len(),
                addresses@ == addresses_of(endpoints@).take(i as int),
            decreases endpoints.len() - i,
        {
            addresses.push(endpoints[i].socket);
            assert(addresses@ == addresses_of(endpoints@).take(i + 1));
            i += 1;
        }
        assert(addresses@ == addresses_of(endpoints@));
        SocketManager { addresses, cursor: 0, stage: BindStage::Binding, bound: Vec::new() }
    }

    /// Whether every endpoint has been dealt with.
    pub fn is_finished(&self) -> (finished: bool)
        ensures
            finished == self@.finished(),
    {
        self.cursor >= self.addresses.len()
    }

    /// The endpoints kept so far, in the order of the configured list.
    pub fn bound(&self) -> (sockets: &Vec<BoundSocket>)
        ensures
            sockets@ == self@.bound,
    {
        &self.bound
    }

    /// What the caller is to do next.
    pub fn next_action(&self) -> (action: SocketAction)
        ensures
            action == self@.next_action(),
    {
        if self.cursor >= self.addresses.len() {
            return SocketAction::Finished;
        }
        let address = self.addresses[self.cursor];
        match self.stage {
            BindStage::Binding => SocketAction::Bind { endpoint: self.cursor, address },
            BindStage::SettingNonblocking => SocketAction::SetNonblocking { endpoint: self.cursor },
            BindStage::JoiningMulticast => SocketAction::JoinMulticast {
                endpoint: self.cursor,
                join: multicast_join(&address.ip),
            },
        }
    }

    /// Takes in whether the operation last handed out succeeded, and says
    /// what that meant for its endpoint.
    pub fn record(&mut self, succeeded: bool) -> (progress: Progress)
        ensures
            final(self)@ == old(self)@.after(succeeded),
            progress == old(self)@.progress(succeeded),
    {
        if self.cursor >= self.addresses.len() {
            return Progress::Idle;
        }
        let endpoint = self.cursor;
        let address = self.addresses[endpoint];
        if !succeeded {
            self.cursor = endpoint + 1;
            self.stage = BindStage::Binding;
            return Progress::Dropped { endpoint };
        }
        let last = match self.stage {
            BindStage::Binding => false,
            BindStage::SettingNonblocking => match multicast_join(&address.ip) {
                MulticastJoin::NotNeeded => true,
                _ => false,
            },
            BindStage::JoiningMulticast => true,
        };
        if last {
            let socket = BoundSocket {
                endpoint,
                address,
                nonblocking: true,
                multicast_joined: address.ip.is_multicast(),
            };
            self.bound.push(socket);
            self.cursor = endpoint + 1;
            self.stage = BindStage::Binding;
            Progress::Bound(socket)
        } else {
            self.stage = match self.stage {
                BindStage::Binding => BindStage::SettingNonblocking,
                _ => BindStage::JoiningMulticast,
            };
            Progress::Continue
        }
    }
}

} // verus!
