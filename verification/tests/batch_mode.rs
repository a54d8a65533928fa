use std::time::Duration;

use noir_compute::batch_mode::BatchMode;
use noir_compute::batcher::Batcher;
use noir_compute::config::RuntimeConfig;
use noir_compute::coord::Coord;
use noir_compute::element::StreamElement;
use noir_compute::stream::FakeOperator;
use noir_compute::stream::StreamContext;

#[test]
fn batch_mode_fixed() {
    let env = StreamContext::new(RuntimeConfig::local(4));
    let source = FakeOperator::<u8>::empty();
    let batch_mode = BatchMode::fixed(42);
    let stream = env.stream(source).batch_mode(batch_mode);
    assert_eq!(stream.block.batch_mode, batch_mode);
}

#[test]
fn batch_mode_adaptive() {
    let env = StreamContext::new(RuntimeConfig::local(4));
    let source = FakeOperator::<u8>::empty();
    let batch_mode = BatchMode::adaptive(42, Duration::from_secs(42).as_millis() as u64);
    let stream = env.stream(source).batch_mode(batch_mode);
    assert_eq!(stream.block.batch_mode, batch_mode);
}

#[test]
fn batch_inherit_from_previous() {
    let env = StreamContext::new(RuntimeConfig::local(4));
    let source = FakeOperator::<u8>::empty();
    let batch_mode = BatchMode::adaptive(42, Duration::from_secs(42).as_millis() as u64);
    let stream = env.stream(source).batch_mode(batch_mode).group_by(|_| 0);
    assert_eq!(stream.0.block.batch_mode, batch_mode);
}

#[test]
fn batch_mode_default_is_adaptive() {
    assert_eq!(BatchMode::default(), BatchMode::Adaptive(1024, 50));
    assert_eq!(BatchMode::single(), BatchMode::Single);
    assert_eq!(BatchMode::Single.max_batch_size(), 1);
    assert_eq!(BatchMode::fixed(7).max_batch_size(), 7);
    assert_eq!(BatchMode::adaptive(9, 100).max_batch_size(), 9);
}

#[test]
fn batcher_fixed_flushes_when_full() {
    let coord = Coord::new(3, 0, 1);
    let mut batcher: Batcher<u32> = Batcher::new(BatchMode::fixed(2), coord);
    assert!(batcher.enqueue(StreamElement::Item(10), 0).is_none());
    let message = batcher.enqueue(StreamElement::Item(20), 1).expect("the batch is full");
    assert_eq!(message.sender, coord);
    assert_eq!(
        message.elements,
        vec![StreamElement::Item(10), StreamElement::Item(20)]
    );
    // the buffer starts over afterwards
    assert!(batcher.enqueue(StreamElement::Item(30), 2).is_none());
}

#[test]
fn batcher_single_sends_every_element_alone() {
    let coord = Coord::new(0, 0, 0);
    let mut batcher: Batcher<u32> = Batcher::new(BatchMode::single(), coord);
    let message = batcher.enqueue(StreamElement::Item(5), 0).expect("single mode always sends");
    assert_eq!(message.elements, vec![StreamElement::Item(5)]);
    assert_eq!(message.num_items(), 1);
}

#[test]
fn batcher_adaptive_respects_max_delay() {
    // a slow source: one element, then the deadline passes
    let coord = Coord::new(1, 0, 0);
    let mut batcher: Batcher<u32> = Batcher::new(BatchMode::adaptive(1024, 10), coord);
    assert!(batcher.enqueue(StreamElement::Item(1), 100).is_none());
    // before the deadline nothing leaves
    assert!(batcher.flush_if_due(105).is_none());
    // at the deadline the element leaves, alone
    let message = batcher.flush_if_due(110).expect("the element is overdue");
    assert_eq!(message.elements, vec![StreamElement::Item(1)]);
    // an element enqueued past the deadline of an older one leaves with it
    assert!(batcher.enqueue(StreamElement::Item(2), 200).is_none());
    let message = batcher.enqueue(StreamElement::Item(3), 215).expect("the first is overdue");
    assert_eq!(
        message.elements,
        vec![StreamElement::Item(2), StreamElement::Item(3)]
    );
}

#[test]
fn batcher_adaptive_never_exceeds_size() {
    let coord = Coord::new(1, 0, 0);
    let mut batcher: Batcher<u32> = Batcher::new(BatchMode::adaptive(3, 1000), coord);
    assert!(batcher.enqueue(StreamElement::Item(1), 0).is_none());
    assert!(batcher.enqueue(StreamElement::Item(2), 0).is_none());
    let message = batcher.enqueue(StreamElement::Item(3), 0).expect("the batch is full");
    assert_eq!(message.elements.len(), 3);
}

#[test]
fn batcher_forced_flush_drains_the_buffer() {
    let coord = Coord::new(2, 1, 0);
    let mut batcher: Batcher<u32> = Batcher::new(BatchMode::fixed(10), coord);
    assert!(batcher.flush().is_none());
    batcher.enqueue(StreamElement::Item(7), 0);
    let message = batcher.flush().expect("one element was buffered");
    assert_eq!(message.elements, vec![StreamElement::Item(7)]);
    assert!(batcher.flush().is_none());
}
