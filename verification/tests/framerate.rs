use path2d::actor::ActorError;
use path2d::framerate::FramerateActor;

#[test]
fn new_actor_records_and_has_no_ticks() {
    let mut actor = FramerateActor::create("framerate1".to_string());
    assert_eq!(actor.name(), "framerate1");
    // It records already: starting again requests no frame.
    assert!(!actor.start_recording());
    assert_eq!(actor.take_pending_ticks(), vec![]);
}

#[test]
fn ticks_are_kept_in_order_until_taken() {
    let mut actor = FramerateActor::create("f".to_string());
    assert!(actor.add_tick(1.5f64.to_bits()));
    assert!(actor.add_tick(0.25f64.to_bits()));
    assert!(actor.add_tick(1.5f64.to_bits()));
    assert_eq!(
        actor.take_pending_ticks(),
        vec![1.5f64.to_bits(), 0.25f64.to_bits(), 1.5f64.to_bits()]
    );
    assert_eq!(actor.take_pending_ticks(), vec![]);
    assert!(actor.add_tick(7));
    assert_eq!(actor.take_pending_ticks(), vec![7]);
}

#[test]
fn stopped_actor_keeps_ticks_and_requests_no_frame() {
    let mut actor = FramerateActor::create("f".to_string());
    assert!(actor.add_tick(1));
    actor.stop_recording();
    assert!(!actor.add_tick(2));
    actor.stop_recording();
    assert!(!actor.add_tick(3));
    assert_eq!(actor.take_pending_ticks(), vec![1, 2, 3]);
}

#[test]
fn starting_requests_a_frame_once() {
    let mut actor = FramerateActor::create("f".to_string());
    actor.stop_recording();
    assert!(actor.start_recording());
    assert!(!actor.start_recording());
    assert!(actor.add_tick(4));
}

#[test]
fn framerate_actor_answers_no_message() {
    let actor = FramerateActor::create("f".to_string());
    for kind in ["", "start", "bootstrap", "getTraits"] {
        assert_eq!(actor.handle_message(kind), Err(ActorError::UnrecognizedPacketType));
    }
}
