use substrate_course::traffic_light::{Time, TrafficList};

#[test]
fn traffic_light_do_test() {
    let yellow = TrafficList::Yellow;
    println!("{}", yellow.time());
    assert_eq!(TrafficList::Yellow.time(), 4);
}

#[test]
fn traffic_light_durations() {
    assert_eq!(TrafficList::Red.time(), 50);
    assert_eq!(TrafficList::Green.time(), 46);
    let cycle = TrafficList::Red.time() + TrafficList::Yellow.time() + TrafficList::Green.time();
    assert_eq!(cycle, 100);
}
