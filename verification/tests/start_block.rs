use noir_compute::coord::Coord;
use noir_compute::coord::ReceiverEndpoint;
use noir_compute::element::NetworkMessage;
use noir_compute::element::StreamElement;
use noir_compute::network::local_channel;
use noir_compute::start::ExecutionMetadata;
use noir_compute::start::StartBlock;
use noir_compute::start::StartError;

fn endpoint() -> ReceiverEndpoint {
    ReceiverEndpoint::new(Coord::new(1, 0, 0), 0)
}

#[test]
fn start_block_merges_and_ends_once() {
    // two upstream replicas feed the same inbox
    let (sender, receiver) = local_channel::<u32>(endpoint());
    let up0 = Coord::new(0, 0, 0);
    let up1 = Coord::new(0, 0, 1);
    let mut start: StartBlock<u32> = StartBlock::new();
    start.setup(ExecutionMetadata { coord: Coord::new(1, 0, 0), num_prev: 2 }, receiver);

    sender
        .send(NetworkMessage::new(
            up0,
            vec![StreamElement::Item(1), StreamElement::Item(2), StreamElement::End],
        ))
        .unwrap();
    sender
        .send(NetworkMessage::new(up1, vec![StreamElement::Item(3), StreamElement::End]))
        .unwrap();

    assert_eq!(start.next(), Ok(StreamElement::Item(1)));
    assert_eq!(start.next(), Ok(StreamElement::Item(2)));
    // the first upstream End is swallowed and the pull goes on
    assert_eq!(start.next(), Ok(StreamElement::Item(3)));
    // after the last upstream End the block emits its own End, exactly once,
    // and keeps emitting it
    assert_eq!(start.next(), Ok(StreamElement::End));
    assert_eq!(start.next(), Ok(StreamElement::End));
}

#[test]
fn start_block_forwards_watermarks_and_markers() {
    let (sender, receiver) = local_channel::<u32>(endpoint());
    let up = Coord::new(0, 0, 0);
    let mut start: StartBlock<u32> = StartBlock::new();
    start.setup(ExecutionMetadata { coord: Coord::new(1, 0, 0), num_prev: 1 }, receiver);

    sender
        .send(NetworkMessage::new(
            up,
            vec![
                StreamElement::Timestamped(9, 100),
                StreamElement::Watermark(100),
                StreamElement::FlushBatch,
                StreamElement::Terminate,
                StreamElement::End,
            ],
        ))
        .unwrap();

    assert_eq!(start.next(), Ok(StreamElement::Timestamped(9, 100)));
    assert_eq!(start.next(), Ok(StreamElement::Watermark(100)));
    assert_eq!(start.next(), Ok(StreamElement::FlushBatch));
    assert_eq!(start.next(), Ok(StreamElement::Terminate));
    assert_eq!(start.next(), Ok(StreamElement::End));
}

#[test]
fn start_block_reports_disconnection() {
    let (sender, receiver) = local_channel::<u32>(endpoint());
    let mut start: StartBlock<u32> = StartBlock::new();
    start.setup(ExecutionMetadata { coord: Coord::new(1, 0, 0), num_prev: 1 }, receiver);
    drop(sender);
    assert_eq!(start.next(), Err(StartError::Disconnected));
}

#[test]
fn start_block_rejects_extra_end() {
    let (sender, receiver) = local_channel::<u32>(endpoint());
    let up = Coord::new(0, 0, 0);
    let mut start: StartBlock<u32> = StartBlock::new();
    start.setup(ExecutionMetadata { coord: Coord::new(1, 0, 0), num_prev: 1 }, receiver);
    sender
        .send(NetworkMessage::new(up, vec![StreamElement::End, StreamElement::End]))
        .unwrap();
    assert_eq!(start.next(), Err(StartError::UnexpectedEnd));
}

#[test]
fn start_block_rejects_empty_message() {
    let (sender, receiver) = local_channel::<u32>(endpoint());
    let up = Coord::new(0, 0, 0);
    let mut start: StartBlock<u32> = StartBlock::new();
    start.setup(ExecutionMetadata { coord: Coord::new(1, 0, 0), num_prev: 1 }, receiver);
    sender.send(NetworkMessage::new(up, vec![])).unwrap();
    assert_eq!(start.next(), Err(StartError::EmptyMessage));
}

#[test]
fn network_sender_reports_its_endpoint_on_disconnect() {
    let (sender, receiver) = local_channel::<u32>(endpoint());
    drop(receiver);
    let err = sender
        .send(NetworkMessage::new(Coord::new(0, 0, 0), vec![StreamElement::Item(1)]))
        .unwrap_err();
    assert_eq!(
        err,
        noir_compute::network::NetworkSendError::Disconnected(endpoint())
    );
}

#[test]
fn network_channel_delivers_messages_in_order() {
    let (sender, receiver) = local_channel::<u32>(endpoint());
    let up = Coord::new(0, 0, 0);
    sender.send(NetworkMessage::new(up, vec![StreamElement::Item(1)])).unwrap();
    sender.send(NetworkMessage::new(up, vec![StreamElement::Item(2)])).unwrap();
    let first = receiver.recv().unwrap();
    let second = receiver.recv().unwrap();
    assert_eq!(first.elements, vec![StreamElement::Item(1)]);
    assert_eq!(second.elements, vec![StreamElement::Item(2)]);
    assert_eq!(first.sender, up);
    assert_eq!(first.num_items(), 1);
}

#[test]
fn remote_sender_routes_through_the_multiplexer() {
    let (tx, rx) = noir_compute::channel::bounded(16);
    let mux = noir_compute::network::MultiplexingSender::new(tx);
    let sender = noir_compute::network::NetworkSender::remote(endpoint(), mux);
    assert!(sender.inner().is_none());
    let up = Coord::new(0, 0, 0);
    sender.send(NetworkMessage::new(up, vec![StreamElement::Item(9)])).unwrap();
    // the multiplexer task receives the batch tagged with its endpoint
    let (destination, message) = rx.recv().unwrap();
    assert_eq!(destination, endpoint());
    assert_eq!(message.elements, vec![StreamElement::Item(9)]);
    // once the multiplexer is gone the sender reports its own endpoint
    drop(rx);
    let err = sender.send(NetworkMessage::new(up, vec![StreamElement::Item(1)])).unwrap_err();
    assert_eq!(err, noir_compute::network::NetworkSendError::Disconnected(endpoint()));
}

#[test]
fn network_receiver_select_picks_the_ready_side() {
    let ep_a = ReceiverEndpoint::new(Coord::new(1, 0, 0), 0);
    let ep_b = ReceiverEndpoint::new(Coord::new(2, 0, 0), 0);
    let (sender_a, receiver_a) = local_channel::<u32>(ep_a);
    let (_sender_b, receiver_b) = local_channel::<u64>(ep_b);
    sender_a.send(NetworkMessage::new(Coord::new(0, 0, 0), vec![StreamElement::Item(7)])).unwrap();
    match receiver_a.select(&receiver_b) {
        noir_compute::channel::SelectResult::A(Ok(message)) => {
            assert_eq!(message.elements, vec![StreamElement::Item(7)]);
        },
        _ => panic!("the first receiver held a message"),
    }
}
