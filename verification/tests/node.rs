use kaspa_ng::node::{peer_groups, peer_panel, PeerPanel};

#[test]
fn peer_panels() {
    assert_eq!(peer_panel(false, true, 3), PeerPanel::NotConnected);
    assert_eq!(peer_panel(true, true, 0), PeerPanel::Peers);
    assert_eq!(peer_panel(true, false, 2), PeerPanel::Updating);
    assert_eq!(peer_panel(true, false, 0), PeerPanel::NoPeers);
}

#[test]
fn peers_split_by_direction() {
    let (outbound, inbound) = peer_groups(&vec![true, false, false, true, true]);
    assert_eq!(outbound, vec![0, 3, 4]);
    assert_eq!(inbound, vec![1, 2]);
    let (outbound, inbound) = peer_groups(&vec![]);
    assert!(outbound.is_empty() && inbound.is_empty());
}
