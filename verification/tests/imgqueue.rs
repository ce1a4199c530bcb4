use camview::cameraframe::{CameraFrame, RawFrame};
use camview::framedata::FrameData;
use camview::imgqueue::ImageQueue;

fn frame(id: u16) -> RawFrame {
    RawFrame::Gray16(CameraFrame::create(
        100,
        id as i64,
        12,
        FrameData { width: 1, height: 1, data: vec![id] },
    ))
}

fn id(frame: &RawFrame) -> u16 {
    match frame {
        RawFrame::Gray16(f) => f.data.data[0],
        _ => panic!("not a frame of this test"),
    }
}

#[test]
fn test_queue_is_first_in_first_out() {
    let mut queue = ImageQueue::new();
    for i in 1..=5 {
        queue.add_frame_to_queue(frame(i));
    }
    assert_eq!(queue.len(), 5);
    let mut order = vec![];
    while let Some(f) = queue.next_frame() {
        order.push(id(&f));
    }
    assert_eq!(order, vec![1, 2, 3, 4, 5]);
    assert!(queue.is_empty());
}

#[test]
fn test_queue_keeps_order_across_wakeups() {
    let mut queue = ImageQueue::new();
    let mut order = vec![];
    queue.add_frame_to_queue(frame(1));
    queue.add_frame_to_queue(frame(2));
    order.push(id(&queue.next_frame().unwrap()));
    queue.add_frame_to_queue(frame(3));
    order.push(id(&queue.next_frame().unwrap()));
    order.push(id(&queue.next_frame().unwrap()));
    assert!(queue.next_frame().is_none());
    queue.add_frame_to_queue(frame(4));
    order.push(id(&queue.next_frame().unwrap()));
    assert_eq!(order, vec![1, 2, 3, 4]);
}

#[test]
fn test_empty_queue_gives_nothing() {
    let mut queue = ImageQueue::new();
    assert!(queue.is_empty());
    assert_eq!(queue.len(), 0);
    assert!(queue.next_frame().is_none());
    assert!(queue.drain().is_empty());
    assert!(queue.is_empty());
}

#[test]
fn test_drain_takes_all_in_order() {
    let mut queue = ImageQueue::new();
    for i in 10..20 {
        queue.add_frame_to_queue(frame(i));
    }
    let frames = queue.drain();
    assert_eq!(frames.iter().map(id).collect::<Vec<u16>>(), (10..20).collect::<Vec<u16>>());
    assert!(queue.is_empty());
    queue.add_frame_to_queue(frame(99));
    assert_eq!(queue.drain().iter().map(id).collect::<Vec<u16>>(), vec![99]);
}

#[test]
fn test_no_frame_is_lost_between_producers() {
    // Two producers hand in frames in turn; every frame comes out once.
    let mut queue = ImageQueue::new();
    let mut taken = vec![];
    for round in 0..50u16 {
        queue.add_frame_to_queue(frame(round));
        queue.add_frame_to_queue(frame(1000 + round));
        if round % 3 == 0 {
            taken.extend(queue.drain().iter().map(id));
        }
    }
    taken.extend(queue.drain().iter().map(id));
    assert_eq!(taken.len(), 100);
    let first: Vec<u16> = taken.iter().copied().filter(|i| *i < 1000).collect();
    let second: Vec<u16> = taken.iter().copied().filter(|i| *i >= 1000).collect();
    assert_eq!(first, (0..50).collect::<Vec<u16>>());
    assert_eq!(second, (1000..1050).collect::<Vec<u16>>());
}
