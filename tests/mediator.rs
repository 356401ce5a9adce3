use design_patterns::mediator::{
    Arrival, FreightTrain, Mediator, PassengerTrain, Train, TrainKind, TrainStation,
};

#[test]
fn second_train_waits_then_takes_the_platform() {
    let mut station = TrainStation::new();
    assert_eq!(station.accept(PassengerTrain::new("Train 1")), Arrival::Arrived);
    assert_eq!(station.accept(FreightTrain::new("Train 2")), Arrival::Waiting);
    assert_eq!(station.train_on_platform(), Some("Train 1".to_string()));
    assert!(station.depart("Train 1"));
    assert_eq!(station.train_on_platform(), Some("Train 2".to_string()));
    assert!(station.depart("Train 2"));
    assert_eq!(station.train_on_platform(), None);
    assert!(!station.depart("Train 3"));
}

#[test]
fn same_name_cannot_arrive_twice() {
    let mut station = TrainStation::new();
    assert_eq!(station.accept(PassengerTrain::new("A")), Arrival::Arrived);
    assert_eq!(station.accept(FreightTrain::new("A")), Arrival::AlreadyArrived);
    assert_eq!(station.kind_of("A"), Some(TrainKind::Passenger));
    assert_eq!(station.kind_of("B"), None);
}

#[test]
fn waiting_train_that_leaves_gives_up_its_place() {
    let mut station = TrainStation::new();
    station.accept(PassengerTrain::new("A"));
    station.accept(FreightTrain::new("B"));
    station.accept(PassengerTrain::new("C"));
    assert!(station.depart("B"));
    assert_eq!(station.train_on_platform(), Some("A".to_string()));
    assert!(station.depart("A"));
    assert_eq!(station.train_on_platform(), Some("C".to_string()));
    assert_eq!(station.kind_of("B"), None);
}

#[test]
fn trains_talk_to_the_mediator() {
    let mut station = TrainStation::default();
    let mut train = FreightTrain::new("F");
    assert_eq!(train.name(), "F");
    assert_eq!(train.kind(), TrainKind::Freight);
    assert!(train.arrive(&mut station));
    assert!(!station.notify_about_arrival("G"));
    train.depart(&mut station);
    assert_eq!(station.train_on_platform(), Some("G".to_string()));
}
