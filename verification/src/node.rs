use vstd::prelude::*;

verus! {

/// What the peer section of the node page shows.
#[derive(Clone, Copy, Debug, PartialEq, Eq, Structural)]
pub enum PeerPanel {
    /// The node is not connected.
    NotConnected,
    /// The peer list is known: inbound and outbound peers.
    Peers,
    /// The node reports active peers but their list is not known yet.
    Updating,
    NoPeers,
}

/// What the peer section shows: nothing while not connected, the peers when
/// their list is known, else a wait while the node reports active peers.
pub open spec fn peer_panel_for(connected: bool, peers_known: bool, active_peers: u64) -> PeerPanel {
    if !connected {
        PeerPanel::NotConnected
    } else if peers_known {
        PeerPanel::Peers
    } else if active_peers > 0 {
        PeerPanel::Updating
    } else {
        PeerPanel::NoPeers
    }
}

/// What the peer section of the node page shows.
pub fn peer_panel(connected: bool, peers_known: bool, active_peers: u64) -> (r: PeerPanel)
    ensures
        r == peer_panel_for(connected, peers_known, active_peers),
{
    if !connected {
        PeerPanel::NotConnected
    } else if peers_known {
        PeerPanel::Peers
    } else if active_peers > 0 {
        PeerPanel::Updating
    } else {
        PeerPanel::NoPeers
    }
}

/// The positions, in order, of the flags equal to `v`.
pub open spec fn positions_where(flags: Seq<bool>, v: bool) -> Seq<usize>
    decreases flags.len(),
{
    if flags.len() == 0 {
        Seq::empty()
    } else {
        let rest = positions_where(flags.drop_last(), v);
        if flags.last() == v { rest.push((flags.len() - 1) as usize) } else { rest }
    }
}

/// Splits the peers, given whether each is outbound, into the positions of
/// the outbound peers and those of the inbound peers, each in list order.
pub fn peer_groups(is_outbound: &Vec<bool>) -> (r: (Vec<usize>, Vec<usize>))
    ensures
        r.0@ == positions_where(is_outbound@, true),
        r.1@ == positions_where(is_outbound@, false),
{
    let mut outbound: Vec<usize> = Vec::new();
    let mut inbound: Vec<usize> = Vec::new();
    let mut i: usize = 0;
    while i < is_outbound.len()
        invariant
            i <= is_outbound@.len(),
            outbound@ == positions_where(is_outbound@.take(i as int), true),
            inbound@ == positions_where(is_outbound@.take(i as int), false),
        decreases is_outbound@.len() - i,
    {
        proof {
            let next = is_outbound@.take(i + 1);
            assert(next.drop_last() =~= is_outbound@.take(i as int));
            assert(next.last() == is_outbound@[i as int]);
        }
        if is_outbound[i] {
            outbound.push(i);
        } else {
            inbound.push(i);
        }
        i = i + 1;
    }
    assert(is_outbound@.take(is_outbound@.len() as int) =~= is_outbound@);
    (outbound, inbound)
}

/// Every peer is in exactly one group: the two groups together are as many
/// as the peers, and each position is where the flag says (for any list a
/// `Vec` can hold).
pub proof fn lemma_peer_groups_partition(flags: Seq<bool>)
    requires
        flags.len() <= usize::MAX,
    ensures
        positions_where(flags, true).len() + positions_where(flags, false).len() == flags.len(),
        forall|k: int| 0 <= k < positions_where(flags, true).len() ==> {
            let p = #[trigger] positions_where(flags, true)[k];
            p < flags.len() && flags[p as int]
        },
        forall|k: int| 0 <= k < positions_where(flags, false).len() ==> {
            let p = #[trigger] positions_where(flags, false)[k];
            p < flags.len() && !flags[p as int]
        },
    decreases flags.len(),
{
    if flags.len() > 0 {
        let init = flags.drop_last();
        lemma_peer_groups_partition(init);
        let last = (flags.len() - 1) as usize;
        assert(last as int == flags.len() - 1);
        assert forall|k: int| 0 <= k < positions_where(flags, true).len() implies {
            let p = #[trigger] positions_where(flags, true)[k];
            p < flags.len() && flags[p as int]
        } by {
            let pt = positions_where(init, true);
            if k < pt.len() {
                let p = pt[k];
                assert(positions_where(flags, true)[k] == p);
                assert(flags[p as int] == init[p as int]);
            } else {
                assert(flags.last() == true);
                assert(positions_where(flags, true)[k] == last);
            }
        }
        assert forall|k: int| 0 <= k < positions_where(flags, false).len() implies {
            let p = #[trigger] positions_where(flags, false)[k];
            p < flags.len() && !flags[p as int]
        } by {
            let pf = positions_where(init, false);
            if k < pf.len() {
                let p = pf[k];
                assert(positions_where(flags, false)[k] == p);
                assert(flags[p as int] == init[p as int]);
            } else {
                assert(flags.last() == false);
                assert(positions_where(flags, false)[k] == last);
            }
        }
    }
}

} // verus!
