use canvas2d::canvas_msg::{CanvasMsg, CommandChannel};
use canvas2d::error::Error;
use canvas2d::geometry::Size2D;

#[test]
fn a_channel_hands_out_what_was_sent_in_its_order() {
    let mut channel = CommandChannel::new();
    assert!(channel.is_open());
    assert_eq!(channel.pending(), 0);
    assert_eq!(channel.receive(), None);
    let sent = vec![
        CanvasMsg::BeginPath,
        CanvasMsg::Fill,
        CanvasMsg::Recreate(Size2D { width: 1, height: 2 }),
        CanvasMsg::PutImageData(vec![1, 2, 3, 4], canvas2d::geometry::rect(0, 0, 1, 1), None),
        CanvasMsg::BeginPath,
    ];
    for msg in sent.iter() {
        assert_eq!(channel.send(msg.clone()), Ok(()));
    }
    assert_eq!(channel.pending(), 5);
    assert_eq!(channel.receive(), Some(sent[0].clone()));
    assert_eq!(channel.send(CanvasMsg::ClosePath), Ok(()));
    for msg in sent.iter().skip(1) {
        assert_eq!(channel.receive(), Some(msg.clone()));
    }
    assert_eq!(channel.receive(), Some(CanvasMsg::ClosePath));
    assert_eq!(channel.receive(), None);
    assert!(channel.is_open());
}

#[test]
fn close_shuts_the_channel() {
    let mut channel = CommandChannel::new();
    assert_eq!(channel.send(CanvasMsg::Fill), Ok(()));
    assert_eq!(channel.send(CanvasMsg::Close), Ok(()));
    assert!(!channel.is_open());
    assert_eq!(channel.send(CanvasMsg::Fill), Err(Error::Disconnected));
    assert_eq!(channel.send(CanvasMsg::Close), Err(Error::Disconnected));
    assert_eq!(channel.pending(), 2);
    assert_eq!(channel.receive(), Some(CanvasMsg::Fill));
    assert_eq!(channel.receive(), Some(CanvasMsg::Close));
    assert_eq!(channel.receive(), None);
    assert_eq!(channel.send(CanvasMsg::Fill), Err(Error::Disconnected));
}

#[test]
fn a_channel_without_a_worker_takes_nothing() {
    let mut channel = CommandChannel::new();
    assert_eq!(channel.send(CanvasMsg::Fill), Ok(()));
    channel.disconnect();
    assert!(!channel.is_open());
    assert_eq!(channel.send(CanvasMsg::BeginPath), Err(Error::Disconnected));
    assert_eq!(channel.pending(), 1);
    assert_eq!(channel.receive(), Some(CanvasMsg::Fill));
}
