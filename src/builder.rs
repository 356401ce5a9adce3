//! Step-by-step construction of cars and of their manuals.
//!
//! Quantities are fixed-point integers: engine volume and fuel in tenths of a
//! litre, mileage in tenths of a kilometre.
use vstd::prelude::*;
use vstd::string::StringExecFns;

use crate::text::{decimal, decimal_string, tenths, tenths_string};

verus! {

/// Fuel in the tank of a new car, in tenths of a litre.
pub const DEFAULT_FUEL: u32 = 50;

#[derive(Clone, Copy, Debug, PartialEq, Eq, Structural)]
pub enum CarType {
    CityCar,
    SportsCar,
    Suv,
}

pub open spec fn car_type_name(t: CarType) -> Seq<char> {
    match t {
        CarType::CityCar => "CityCar"@,
        CarType::SportsCar => "SportsCar"@,
        CarType::Suv => "Suv"@,
    }
}

impl CarType {
    /// The name of the car type.
    pub fn name(&self) -> (r: &'static str)
        ensures
            r@ == car_type_name(*self),
    {
        match self {
            CarType::CityCar => "CityCar",
            CarType::SportsCar => "SportsCar",
            CarType::Suv => "Suv",
        }
    }
}

#[derive(Clone, Copy, Debug, PartialEq, Eq, Structural)]
pub enum Transmission {
    SingleSpeed,
    Manual,
    Automatic,
    SemiAutomatic,
}

pub open spec fn transmission_name(t: Transmission) -> Seq<char> {
    match t {
        Transmission::SingleSpeed => "SingleSpeed"@,
        Transmission::Manual => "Manual"@,
        Transmission::Automatic => "Automatic"@,
        Transmission::SemiAutomatic => "SemiAutomatic"@,
    }
}

impl Transmission {
    /// The name of the transmission.
    pub fn name(&self) -> (r: &'static str)
        ensures
            r@ == transmission_name(*self),
    {
        match self {
            Transmission::SingleSpeed => "SingleSpeed",
            Transmission::Manual => "Manual",
            Transmission::Automatic => "Automatic",
            Transmission::SemiAutomatic => "SemiAutomatic",
        }
    }
}

pub struct Engine {
    volume: u32,
    mileage: u64,
    started: bool,
}

impl Engine {
    pub closed spec fn spec_volume(&self) -> u32 {
        self.volume
    }

    pub closed spec fn spec_mileage(&self) -> u64 {
        self.mileage
    }

    pub closed spec fn spec_started(&self) -> bool {
        self.started
    }

    /// A stopped engine of the given volume that has run `mileage` so far.
    pub fn new(volume: u32, mileage: u64) -> (r: Self)
        ensures
            r.volume() == volume,
            r.mileage() == mileage,
            !r.started(),
    {
        Engine { volume, mileage, started: false }
    }

    pub fn on(&mut self)
        ensures
            final(self).started(),
            final(self).volume() == old(self).volume(),
            final(self).mileage() == old(self).mileage(),
    {
        self.started = true;
    }

    pub fn off(&mut self)
        ensures
            !final(self).started(),
            final(self).volume() == old(self).volume(),
            final(self).mileage() == old(self).mileage(),
    {
        self.started = false;
    }

    #[verifier::when_used_as_spec(spec_started)]
    pub fn started(&self) -> (r: bool)
        ensures
            r == self.spec_started(),
    {
        self.started
    }

    #[verifier::when_used_as_spec(spec_volume)]
    pub fn volume(&self) -> (r: u32)
        ensures
            r == self.spec_volume(),
    {
        self.volume
    }

    #[verifier::when_used_as_spec(spec_mileage)]
    pub fn mileage(&self) -> (r: u64)
        ensures
            r == self.spec_mileage(),
    {
        self.mileage
    }

    /// Drives `mileage` further; a stopped engine goes nowhere. True when it went.
    pub fn go(&mut self, mileage: u64) -> (r: bool)
        requires
            old(self).mileage() + mileage <= u64::MAX,
        ensures
            r == old(self).started(),
            final(self).started() == old(self).started(),
            final(self).volume() == old(self).volume(),
            r ==> final(self).mileage() == old(self).mileage() + mileage,
            !r ==> final(self).mileage() == old(self).mileage(),
    {
        if self.started() {
            self.mileage = self.mileage + mileage;
            true
        } else {
            false
        }
    }
}

pub struct GpsNavigator {
    route: String,
}

impl GpsNavigator {
    pub closed spec fn spec_route(&self) -> Seq<char> {
        self.route@
    }

    /// A navigator set to the default route.
    pub fn new() -> (r: Self)
        ensures
            r.spec_route() == "221b, Baker Street, London to Scotland Yard, 8-10 Broadway, London"@,
    {
        Self::from_route(
            "221b, Baker Street, London to Scotland Yard, 8-10 Broadway, London".to_string(),
        )
    }

    pub fn from_route(route: String) -> (r: Self)
        ensures
            r.spec_route() == route@,
    {
        GpsNavigator { route }
    }

    pub fn route(&self) -> (r: &String)
        ensures
            r@ == self.spec_route(),
    {
        &self.route
    }
}

/// The parts a builder has been given so far: car type, seats, engine,
/// transmission and navigator.
pub type Parts = (
    Option<CarType>,
    Option<u16>,
    Option<Engine>,
    Option<Transmission>,
    Option<GpsNavigator>,
);

/// Whether every part that a product needs has been given.
pub open spec fn complete(p: Parts) -> bool {
    &&& p.0 is Some
    &&& p.1 is Some
    &&& p.2 is Some
    &&& p.3 is Some
}

pub trait Builder {
    type OutputType;

    spec fn parts(&self) -> Parts;

    fn set_car_type(&mut self, car_type: CarType)
        ensures
            final(self).parts() == (
                Some(car_type),
                old(self).parts().1,
                old(self).parts().2,
                old(self).parts().3,
                old(self).parts().4,
            ),
    ;

    fn set_seats(&mut self, seats: u16)
        ensures
            final(self).parts() == (
                old(self).parts().0,
                Some(seats),
                old(self).parts().2,
                old(self).parts().3,
                old(self).parts().4,
            ),
    ;

    fn set_engine(&mut self, engine: Engine)
        ensures
            final(self).parts() == (
                old(self).parts().0,
                old(self).parts().1,
                Some(engine),
                old(self).parts().3,
                old(self).parts().4,
            ),
    ;

    fn set_transmission(&mut self, transmission: Transmission)
        ensures
            final(self).parts() == (
                old(self).parts().0,
                old(self).parts().1,
                old(self).parts().2,
                Some(transmission),
                old(self).parts().4,
            ),
    ;

    fn set_gsp_navigator(&mut self, gps_navigator: GpsNavigator)
        ensures
            final(self).parts() == (
                old(self).parts().0,
                old(self).parts().1,
                old(self).parts().2,
                old(self).parts().3,
                Some(gps_navigator),
            ),
    ;

    fn build(self) -> Self::OutputType
        requires
            complete(self.parts()),
    ;
}

pub struct CarBuilder {
    car_type: Option<CarType>,
    engine: Option<Engine>,
    gps_navigator: Option<GpsNavigator>,
    seats: Option<u16>,
    transmission: Option<Transmission>,
}

impl CarBuilder {
    /// A builder that has been given no part yet.
    pub fn new() -> (r: Self)
        ensures
            r.parts() == (
                None::<CarType>,
                None::<u16>,
                None::<Engine>,
                None::<Transmission>,
                None::<GpsNavigator>,
            ),
    {
        CarBuilder {
            car_type: None,
            engine: None,
            gps_navigator: None,
            seats: None,
            transmission: None,
        }
    }
}

impl Builder for CarBuilder {
    type OutputType = Car;

    closed spec fn parts(&self) -> Parts {
        (self.car_type, self.seats, self.engine, self.transmission, self.gps_navigator)
    }

    fn set_car_type(&mut self, car_type: CarType) {
        self.car_type = Some(car_type);
    }

    fn set_seats(&mut self, seats: u16) {
        self.seats = Some(seats);
    }

    fn set_engine(&mut self, engine: Engine) {
        self.engine = Some(engine);
    }

    fn set_transmission(&mut self, transmission: Transmission) {
        self.transmission = Some(transmission);
    }

    fn set_gsp_navigator(&mut self, gps_navigator: GpsNavigator) {
        self.gps_navigator = Some(gps_navigator);
    }

    /// The car, with the default amount of fuel.
    fn build(self) -> (r: Car)
        ensures
            Some(r.car_type()) == self.parts().0,
            Some(r.seats()) == self.parts().1,
            Some(r.spec_engine()) == self.parts().2,
            Some(r.spec_transmission()) == self.parts().3,
            r.spec_gps_navigator() == self.parts().4,
            r.fuel() == DEFAULT_FUEL,
    {
        match (self.car_type, self.seats, self.engine, self.transmission) {
            (Some(car_type), Some(seats), Some(engine), Some(transmission)) => Car::new(
                car_type,
                seats,
                engine,
                transmission,
                self.gps_navigator,
                DEFAULT_FUEL,
            ),
            _ => {
                proof {
                    assert(false);
                }
                Car::new(
                    CarType::CityCar,
                    0,
                    Engine::new(0, 0),
                    Transmission::Manual,
                    None,
                    DEFAULT_FUEL,
                )
            },
        }
    }
}

pub struct CarManualBuilder {
    car_type: Option<CarType>,
    engine: Option<Engine>,
    gps_navigator: Option<GpsNavigator>,
    seats: Option<u16>,
    transmission: Option<Transmission>,
}

impl CarManualBuilder {
    /// A builder that has been given no part yet.
    pub fn new() -> (r: Self)
        ensures
            r.parts() == (
                None::<CarType>,
                None::<u16>,
                None::<Engine>,
                None::<Transmission>,
                None::<GpsNavigator>,
            ),
    {
        CarManualBuilder {
            car_type: None,
            engine: None,
            gps_navigator: None,
            seats: None,
            transmission: None,
        }
    }
}

/// Builds a car manual instead of an actual car.
impl Builder for CarManualBuilder {
    type OutputType = Manual;

    closed spec fn parts(&self) -> Parts {
        (self.car_type, self.seats, self.engine, self.transmission, self.gps_navigator)
    }

    fn set_car_type(&mut self, car_type: CarType) {
        self.car_type = Some(car_type);
    }

    fn set_seats(&mut self, seats: u16) {
        self.seats = Some(seats);
    }

    fn set_engine(&mut self, engine: Engine) {
        self.engine = Some(engine);
    }

    fn set_transmission(&mut self, transmission: Transmission) {
        self.transmission = Some(transmission);
    }

    fn set_gsp_navigator(&mut self, gps_navigator: GpsNavigator) {
        self.gps_navigator = Some(gps_navigator);
    }

    fn build(self) -> (r: Manual)
        ensures
            Some(r.spec_car_type()) == self.parts().0,
            Some(r.spec_seats()) == self.parts().1,
            Some(r.spec_engine()) == self.parts().2,
            Some(r.spec_transmission()) == self.parts().3,
            r.spec_gps_navigator() == self.parts().4,
    {
        match (self.car_type, self.seats, self.engine, self.transmission) {
            (Some(car_type), Some(seats), Some(engine), Some(transmission)) => Manual::new(
                car_type,
                seats,
                engine,
                transmission,
                self.gps_navigator,
            ),
            _ => {
                proof {
                    assert(false);
                }
                Manual::new(CarType::CityCar, 0, Engine::new(0, 0), Transmission::Manual, None)
            },
        }
    }
}

pub struct Car {
    car_type: CarType,
    seats: u16,
    engine: Engine,
    transmission: Transmission,
    gps_navigator: Option<GpsNavigator>,
    fuel: u32,
}

impl Car {
    pub closed spec fn spec_car_type(&self) -> CarType {
        self.car_type
    }

    pub closed spec fn spec_seats(&self) -> u16 {
        self.seats
    }

    pub closed spec fn spec_engine(&self) -> Engine {
        self.engine
    }

    pub closed spec fn spec_transmission(&self) -> Transmission {
        self.transmission
    }

    pub closed spec fn spec_gps_navigator(&self) -> Option<GpsNavigator> {
        self.gps_navigator
    }

    pub closed spec fn spec_fuel(&self) -> u32 {
        self.fuel
    }

    pub fn new(
        car_type: CarType,
        seats: u16,
        engine: Engine,
        transmission: Transmission,
        gps_navigator: Option<GpsNavigator>,
        fuel: u32,
    ) -> (r: Self)
        ensures
            r.car_type() == car_type,
            r.seats() == seats,
            r.spec_engine() == engine,
            r.spec_transmission() == transmission,
            r.spec_gps_navigator() == gps_navigator,
            r.fuel() == fuel,
    {
        Car { car_type, seats, engine, transmission, gps_navigator, fuel }
    }

    #[verifier::when_used_as_spec(spec_car_type)]
    pub fn car_type(&self) -> (r: CarType)
        ensures
            r == self.spec_car_type(),
    {
        self.car_type
    }

    #[verifier::when_used_as_spec(spec_fuel)]
    pub fn fuel(&self) -> (r: u32)
        ensures
            r == self.spec_fuel(),
    {
        self.fuel
    }

    pub fn set_fuel(&mut self, fuel: u32)
        ensures
            final(self).fuel() == fuel,
            final(self).car_type() == old(self).car_type(),
            final(self).seats() == old(self).seats(),
            final(self).spec_engine() == old(self).spec_engine(),
            final(self).spec_transmission() == old(self).spec_transmission(),
            final(self).spec_gps_navigator() == old(self).spec_gps_navigator(),
    {
        self.fuel = fuel;
    }

    #[verifier::when_used_as_spec(spec_seats)]
    pub fn seats(&self) -> (r: u16)
        ensures
            r == self.spec_seats(),
    {
        self.seats
    }

    pub fn engine(&self) -> (r: &Engine)
        ensures
            *r == self.spec_engine(),
    {
        &self.engine
    }

    pub fn transmission(&self) -> (r: &Transmission)
        ensures
            *r == self.spec_transmission(),
    {
        &self.transmission
    }

    pub fn gps_navigator(&self) -> (r: &Option<GpsNavigator>)
        ensures
            *r == self.spec_gps_navigator(),
    {
        &self.gps_navigator
    }
}

pub struct Manual {
    car_type: CarType,
    seats: u16,
    engine: Engine,
    transmission: Transmission,
    gps_navigator: Option<GpsNavigator>,
}

impl Manual {
    pub closed spec fn spec_car_type(&self) -> CarType {
        self.car_type
    }

    pub closed spec fn spec_seats(&self) -> u16 {
        self.seats
    }

    pub closed spec fn spec_engine(&self) -> Engine {
        self.engine
    }

    pub closed spec fn spec_transmission(&self) -> Transmission {
        self.transmission
    }

    pub closed spec fn spec_gps_navigator(&self) -> Option<GpsNavigator> {
        self.gps_navigator
    }

    pub fn new(
        car_type: CarType,
        seats: u16,
        engine: Engine,
        transmission: Transmission,
        gps_navigator: Option<GpsNavigator>,
    ) -> (r: Self)
        ensures
            r.spec_car_type() == car_type,
            r.spec_seats() == seats,
            r.spec_engine() == engine,
            r.spec_transmission() == transmission,
            r.spec_gps_navigator() == gps_navigator,
    {
        Manual { car_type, seats, engine, transmission, gps_navigator }
    }

    pub fn car_type(&self) -> (r: CarType)
        ensures
            r == self.spec_car_type(),
    {
        self.car_type
    }

    pub fn seats(&self) -> (r: u16)
        ensures
            r == self.spec_seats(),
    {
        self.seats
    }

    pub fn engine(&self) -> (r: &Engine)
        ensures
            *r == self.spec_engine(),
    {
        &self.engine
    }

    pub fn transmission(&self) -> (r: Transmission)
        ensures
            r == self.spec_transmission(),
    {
        self.transmission
    }

    /// The text of the manual, one line per part.
    pub fn describe(&self) -> (r: String)
        ensures
            r@ == manual_text(
                self.spec_car_type(),
                self.spec_seats(),
                self.spec_engine().volume(),
                self.spec_engine().mileage(),
                self.spec_transmission(),
                self.spec_gps_navigator() is Some,
            ),
    {
        let mut s = "Type of car: ".to_string();
        s.append(self.car_type.name());
        s.append("\nCount of seats: ");
        let seats = decimal_string(self.seats as u64);
        s.append(seats.as_str());
        s.append("\nEngine: volume - ");
        let volume = tenths_string(self.engine.volume() as u64);
        s.append(volume.as_str());
        s.append("; mileage - ");
        let mileage = tenths_string(self.engine.mileage());
        s.append(mileage.as_str());
        s.append("\nTransmission: ");
        s.append(self.transmission.name());
        if self.gps_navigator.is_some() {
            s.append("\nGPS Navigator: Functional\n");
        } else {
            s.append("\nGPS Navigator: N/A\n");
        }
        s
    }

    /// Whether the car of this manual comes with a navigator.
    pub fn has_gps_navigator(&self) -> (r: bool)
        ensures
            r == self.spec_gps_navigator() is Some,
    {
        self.gps_navigator.is_some()
    }
}

/// The text of a car manual.
pub open spec fn manual_text(
    car_type: CarType,
    seats: u16,
    volume: u32,
    mileage: u64,
    transmission: Transmission,
    navigator: bool,
) -> Seq<char> {
    "Type of car: "@ + car_type_name(car_type) + "\nCount of seats: "@ + decimal(seats as nat)
        + "\nEngine: volume - "@ + tenths(volume as nat) + "; mileage - "@ + tenths(
        mileage as nat,
    ) + "\nTransmission: "@ + transmission_name(transmission) + if navigator {
        "\nGPS Navigator: Functional\n"@
    } else {
        "\nGPS Navigator: N/A\n"@
    }
}

/// Whether `p` holds the parts of a recipe: the car type, seats, an unused
/// engine of the given volume, the transmission and the default navigator.
pub open spec fn follows_recipe(
    p: Parts,
    car_type: CarType,
    seats: u16,
    volume: u32,
    transmission: Transmission,
) -> bool {
    &&& p.0 == Some(car_type)
    &&& p.1 == Some(seats)
    &&& p.2 matches Some(e) && e.volume() == volume && e.mileage() == 0 && !e.started()
    &&& p.3 == Some(transmission)
    &&& p.4 matches Some(g) && g.spec_route()
        == "221b, Baker Street, London to Scotland Yard, 8-10 Broadway, London"@
}

/// Director knows how to build a car.
///
/// However, a builder can build a car manual instead of an actual car,
/// everything depends on the concrete builder.
pub struct Director;

impl Director {
    /// Two seats, a 3.0 litre engine, semi-automatic transmission.
    pub fn construct_sports_car<B: Builder>(builder: &mut B)
        ensures
            follows_recipe(final(builder).parts(), CarType::SportsCar, 2, 30, Transmission::SemiAutomatic),
            complete(final(builder).parts()),
    {
        builder.set_car_type(CarType::SportsCar);
        builder.set_seats(2);
        builder.set_engine(Engine::new(30, 0));
        builder.set_transmission(Transmission::SemiAutomatic);
        builder.set_gsp_navigator(GpsNavigator::new());
    }

    /// Two seats, a 1.2 litre engine, automatic transmission.
    pub fn construct_city_car<B: Builder>(builder: &mut B)
        ensures
            follows_recipe(final(builder).parts(), CarType::CityCar, 2, 12, Transmission::Automatic),
            complete(final(builder).parts()),
    {
        builder.set_car_type(CarType::CityCar);
        builder.set_seats(2);
        builder.set_engine(Engine::new(12, 0));
        builder.set_transmission(Transmission::Automatic);
        builder.set_gsp_navigator(GpsNavigator::new());
    }

    /// Four seats, a 2.5 litre engine, manual transmission.
    pub fn construct_suv<B: Builder>(builder: &mut B)
        ensures
            follows_recipe(final(builder).parts(), CarType::Suv, 4, 25, Transmission::Manual),
            complete(final(builder).parts()),
    {
        builder.set_car_type(CarType::Suv);
        builder.set_seats(4);
        builder.set_engine(Engine::new(25, 0));
        builder.set_transmission(Transmission::Manual);
        builder.set_gsp_navigator(GpsNavigator::new());
    }
}

} // verus!
