use agon_bus::transport::Transport;

#[test]
fn transport_delivers_in_fifo_order() {
    let mut t = Transport::new();
    t.send(1);
    t.send(2);
    t.send(3);
    assert_eq!(t.len(), 3);
    assert_eq!(t.try_receive(), Some(1));
    assert_eq!(t.try_receive(), Some(2));
    t.send(4);
    assert_eq!(t.try_receive(), Some(3));
    assert_eq!(t.try_receive(), Some(4));
    assert_eq!(t.try_receive(), None);
}

#[test]
fn empty_transport_receives_nothing() {
    let mut t = Transport::new();
    assert_eq!(t.len(), 0);
    assert_eq!(t.try_receive(), None);
    assert_eq!(t.len(), 0);
}
