use design_patterns::builder::{
    Builder, CarBuilder, CarManualBuilder, CarType, Director, Engine, GpsNavigator, Transmission,
    DEFAULT_FUEL,
};

#[test]
fn sports_car_from_director() {
    let mut builder = CarBuilder::new();
    Director::construct_sports_car(&mut builder);
    let car = builder.build();
    assert_eq!(car.car_type(), CarType::SportsCar);
    assert_eq!(car.seats(), 2);
    assert_eq!(car.engine().volume(), 30);
    assert_eq!(car.engine().mileage(), 0);
    assert!(!car.engine().started());
    assert_eq!(*car.transmission(), Transmission::SemiAutomatic);
    assert_eq!(
        car.gps_navigator().as_ref().map(|g| g.route().clone()),
        Some("221b, Baker Street, London to Scotland Yard, 8-10 Broadway, London".to_string())
    );
    assert_eq!(car.fuel(), DEFAULT_FUEL);
    assert_eq!(DEFAULT_FUEL, 50);
}

#[test]
fn suv_and_fuel() {
    let mut builder = CarBuilder::new();
    Director::construct_suv(&mut builder);
    let mut car = builder.build();
    assert_eq!(car.car_type(), CarType::Suv);
    assert_eq!(car.seats(), 4);
    assert_eq!(car.engine().volume(), 25);
    assert_eq!(*car.transmission(), Transmission::Manual);
    car.set_fuel(7);
    assert_eq!(car.fuel(), 7);
}

#[test]
fn city_car_manual_text() {
    let mut builder = CarManualBuilder::new();
    Director::construct_city_car(&mut builder);
    let manual = builder.build();
    assert_eq!(
        manual.describe(),
        "Type of car: CityCar\nCount of seats: 2\nEngine: volume - 1.2; mileage - 0\nTransmission: Automatic\nGPS Navigator: Functional\n"
    );
}

#[test]
fn manual_without_navigator() {
    let mut builder = CarManualBuilder::new();
    builder.set_car_type(CarType::Suv);
    builder.set_seats(7);
    builder.set_engine(Engine::new(30, 125));
    builder.set_transmission(Transmission::SingleSpeed);
    let manual = builder.build();
    assert!(!manual.has_gps_navigator());
    assert_eq!(
        manual.describe(),
        "Type of car: Suv\nCount of seats: 7\nEngine: volume - 3; mileage - 12.5\nTransmission: SingleSpeed\nGPS Navigator: N/A\n"
    );
}

#[test]
fn engine_goes_only_when_started() {
    let mut engine = Engine::new(12, 0);
    assert!(!engine.go(100));
    assert_eq!(engine.mileage(), 0);
    engine.on();
    assert!(engine.go(100));
    assert!(engine.go(5));
    assert_eq!(engine.mileage(), 105);
    engine.off();
    assert!(!engine.started());
    assert!(!engine.go(1));
    assert_eq!(engine.mileage(), 105);
}

#[test]
fn navigator_routes() {
    assert_eq!(GpsNavigator::from_route("A to B".to_string()).route(), "A to B");
    assert_eq!(
        GpsNavigator::new().route(),
        "221b, Baker Street, London to Scotland Yard, 8-10 Broadway, London"
    );
}
