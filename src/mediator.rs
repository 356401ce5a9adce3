//! A train station that arbitrates the use of its single platform.
use vstd::prelude::*;

use crate::text::str_eq;

verus! {

/// The queue once every entry equal to `name` is taken out.
pub open spec fn without(queue: Seq<Seq<char>>, name: Seq<char>) -> Seq<Seq<char>>
    decreases queue.len(),
{
    if queue.len() == 0 {
        queue
    } else {
        let rest = without(queue.drop_last(), name);
        if queue.last() == name {
            rest
        } else {
            rest.push(queue.last())
        }
    }
}

/// The platform after `name` announces its departure.
pub open spec fn platform_after_departure(
    platform: Option<Seq<char>>,
    queue: Seq<Seq<char>>,
    name: Seq<char>,
) -> Option<Seq<char>> {
    if platform == Some(name) {
        if queue.len() > 0 {
            Some(queue[0])
        } else {
            None
        }
    } else {
        platform
    }
}

/// The waiting queue after `name` announces its departure: the first waiting
/// train takes a freed platform, and a waiting train that leaves gives up its place.
pub open spec fn queue_after_departure(
    platform: Option<Seq<char>>,
    queue: Seq<Seq<char>>,
    name: Seq<char>,
) -> Seq<Seq<char>> {
    if platform == Some(name) {
        if queue.len() > 0 {
            queue.drop_first()
        } else {
            queue
        }
    } else {
        without(queue, name)
    }
}

/// What trains tell the station about.
pub trait Mediator {
    /// The train on the platform, if any.
    spec fn platform(&self) -> Option<Seq<char>>;

    /// The trains waiting for the platform, first in line first.
    spec fn queue(&self) -> Seq<Seq<char>>;

    /// The trains at the station, with their sorts.
    spec fn docked(&self) -> Seq<(Seq<char>, TrainKind)>;

    fn notify_about_arrival(&mut self, train_name: &str) -> (r: bool)
        ensures
            r == (old(self).platform() is None),
            r ==> final(self).platform() == Some(train_name@),
            r ==> final(self).queue() == old(self).queue(),
            !r ==> final(self).platform() == old(self).platform(),
            !r ==> final(self).queue() == old(self).queue().push(train_name@),
            final(self).docked() == old(self).docked(),
    ;

    fn notify_about_departure(&mut self, train_name: &str)
        ensures
            final(self).platform() == platform_after_departure(
                old(self).platform(),
                old(self).queue(),
                train_name@,
            ),
            final(self).queue() == queue_after_departure(
                old(self).platform(),
                old(self).queue(),
                train_name@,
            ),
            final(self).docked() == old(self).docked(),
    ;
}

/// The two sorts of train.
#[derive(Clone, Copy, Debug, PartialEq, Eq, Structural)]
pub enum TrainKind {
    Freight,
    Passenger,
}

/// A train gets the mediator by reference when it needs it.
pub trait Train {
    spec fn train_name(&self) -> Seq<char>;

    fn name(&self) -> (r: &String)
        ensures
            r@ == self.train_name(),
    ;

    spec fn kind_of_train(&self) -> TrainKind;

    fn kind(&self) -> (r: TrainKind)
        ensures
            r == self.kind_of_train(),
    ;

    /// Asks for the platform; true when the train got it.
    fn arrive<M: Mediator>(&mut self, mediator: &mut M) -> (r: bool)
        ensures
            final(self).train_name() == old(self).train_name(),
            final(self).kind_of_train() == old(self).kind_of_train(),
            r == (old(mediator).platform() is None),
            r ==> final(mediator).platform() == Some(old(self).train_name()),
            r ==> final(mediator).queue() == old(mediator).queue(),
            !r ==> final(mediator).platform() == old(mediator).platform(),
            !r ==> final(mediator).queue() == old(mediator).queue().push(old(self).train_name()),
            final(mediator).docked() == old(mediator).docked(),
    ;

    /// Leaves the station and tells the mediator.
    fn depart<M: Mediator>(&mut self, mediator: &mut M)
        ensures
            final(self).train_name() == old(self).train_name(),
            final(self).kind_of_train() == old(self).kind_of_train(),
            final(mediator).platform() == platform_after_departure(
                old(mediator).platform(),
                old(mediator).queue(),
                old(self).train_name(),
            ),
            final(mediator).queue() == queue_after_departure(
                old(mediator).platform(),
                old(mediator).queue(),
                old(self).train_name(),
            ),
            final(mediator).docked() == old(mediator).docked(),
    ;
}

pub struct FreightTrain {
    name: String,
}

impl FreightTrain {
    pub fn new(name: &str) -> (r: Self)
        ensures
            r.train_name() == name@,
    {
        FreightTrain { name: name.to_string() }
    }
}

impl Train for FreightTrain {
    closed spec fn train_name(&self) -> Seq<char> {
        self.name@
    }

    open spec fn kind_of_train(&self) -> TrainKind {
        TrainKind::Freight
    }

    fn name(&self) -> (r: &String) {
        &self.name
    }

    fn kind(&self) -> (r: TrainKind) {
        TrainKind::Freight
    }

    fn arrive<M: Mediator>(&mut self, mediator: &mut M) -> (r: bool) {
        mediator.notify_about_arrival(self.name.as_str())
    }

    fn depart<M: Mediator>(&mut self, mediator: &mut M) {
        mediator.notify_about_departure(self.name.as_str())
    }
}

pub struct PassengerTrain {
    name: String,
}

impl PassengerTrain {
    pub fn new(name: &str) -> (r: Self)
        ensures
            r.train_name() == name@,
    {
        PassengerTrain { name: name.to_string() }
    }
}

impl Train for PassengerTrain {
    closed spec fn train_name(&self) -> Seq<char> {
        self.name@
    }

    open spec fn kind_of_train(&self) -> TrainKind {
        TrainKind::Passenger
    }

    fn name(&self) -> (r: &String) {
        &self.name
    }

    fn kind(&self) -> (r: TrainKind) {
        TrainKind::Passenger
    }

    fn arrive<M: Mediator>(&mut self, mediator: &mut M) -> (r: bool) {
        mediator.notify_about_arrival(self.name.as_str())
    }

    fn depart<M: Mediator>(&mut self, mediator: &mut M) {
        mediator.notify_about_departure(self.name.as_str())
    }
}

/// What became of a train brought to the station.
#[derive(Clone, Copy, Debug, PartialEq, Eq, Structural)]
pub enum Arrival {
    /// A train of that name is already at the station.
    AlreadyArrived,
    /// The train took the platform.
    Arrived,
    /// The platform is taken: the train waits in line.
    Waiting,
}

/// The names of a list of owned strings.
pub open spec fn names_of(v: Seq<String>) -> Seq<Seq<char>> {
    v.map_values(|s: String| s@)
}

/// The trains of a list of names and sorts.
pub open spec fn trains_of(v: Seq<(String, TrainKind)>) -> Seq<(Seq<char>, TrainKind)> {
    v.map_values(|t: (String, TrainKind)| (t.0@, t.1))
}

/// Whether a train called `name` is among `trains`.
pub open spec fn has_train(trains: Seq<(Seq<char>, TrainKind)>, name: Seq<char>) -> bool {
    exists|i: int| 0 <= i < trains.len() && trains[i].0 == name
}

/// Whether no two of `trains` share a name.
pub open spec fn unique_names(trains: Seq<(Seq<char>, TrainKind)>) -> bool {
    forall|i: int, j: int| 0 <= i < j < trains.len() ==> trains[i].0 != trains[j].0
}

/// The station: it owns the trains and arbitrates the platform.
#[derive(Default)]
pub struct TrainStation {
    trains: Vec<(String, TrainKind)>,
    train_queue: Vec<String>,
    train_on_platform: Option<String>,
}

impl TrainStation {
    /// An empty station.
    pub fn new() -> (r: Self)
        ensures
            r.docked() == Seq::<(Seq<char>, TrainKind)>::empty(),
            r.queue() == Seq::<Seq<char>>::empty(),
            r.platform() is None,
    {
        TrainStation { trains: Vec::new(), train_queue: Vec::new(), train_on_platform: None }
    }

    /// Position of the train called `name`, if it is at the station.
    fn position(&self, name: &str) -> (r: Option<usize>)
        ensures
            match r {
                Some(i) => i < self.docked().len() && self.docked()[i as int].0 == name@,
                None => !has_train(self.docked(), name@),
            },
    {
        let mut i: usize = 0;
        while i < self.trains.len()
            invariant
                i <= self.trains.len(),
                forall|j: int| 0 <= j < i ==> self.trains[j].0@ != name@,
            decreases self.trains.len() - i,
        {
            if str_eq(self.trains[i].0.as_str(), name) {
                return Some(i);
            }
            i = i + 1;
        }
        assert forall|j: int| 0 <= j < self.docked().len() implies self.docked()[j].0 != name@ by {
            assert(self.trains[j].0@ != name@);
        }
        None
    }

    /// The sort of the train called `name`, if it is at the station.
    pub fn kind_of(&self, name: &str) -> (r: Option<TrainKind>)
        ensures
            r is None <==> !has_train(self.docked(), name@),
            r matches Some(k) ==> exists|i: int|
                0 <= i < self.docked().len() && self.docked()[i] == (name@, k),
    {
        match self.position(name) {
            Some(i) => Some(self.trains[i].1),
            None => None,
        }
    }

    /// The name of the train on the platform, if any.
    pub fn train_on_platform(&self) -> (r: Option<String>)
        ensures
            r matches Some(s) ==> self.platform() == Some(s@),
            r is None ==> self.platform() is None,
    {
        match &self.train_on_platform {
            Some(s) => Some(s.clone()),
            None => None,
        }
    }

    /// Takes a train in: it asks for the platform, or waits in line for it.
    pub fn accept<T: Train>(&mut self, train: T) -> (r: Arrival)
        ensures
            unique_names(old(self).docked()) ==> unique_names(final(self).docked()),
            has_train(old(self).docked(), train.train_name()) ==> r == Arrival::AlreadyArrived
                && *final(self) == *old(self),
            !has_train(old(self).docked(), train.train_name()) ==> {
                &&& final(self).docked() == old(self).docked().push(
                    (train.train_name(), train.kind_of_train()),
                )
                &&& old(self).platform() is None ==> r == Arrival::Arrived
                    && final(self).platform() == Some(train.train_name())
                    && final(self).queue() == old(self).queue()
                &&& old(self).platform() is Some ==> r == Arrival::Waiting
                    && final(self).platform() == old(self).platform()
                    && final(self).queue() == old(self).queue().push(train.train_name())
            },
    {
        let mut train = train;
        if self.position(train.name().as_str()).is_some() {
            return Arrival::AlreadyArrived;
        }
        let arrived = train.arrive(self);
        let kind = train.kind();
        let name = train.name().clone();
        self.trains.push((name, kind));
        assert(self.docked() =~= old(self).docked().push((train.train_name(), kind)));
        if arrived {
            Arrival::Arrived
        } else {
            Arrival::Waiting
        }
    }

    /// Sends the train called `name` away; false when no such train is here.
    pub fn depart(&mut self, name: &str) -> (r: bool)
        ensures
            unique_names(old(self).docked()) ==> unique_names(final(self).docked()),
            r == has_train(old(self).docked(), name@),
            !r ==> *final(self) == *old(self),
            r ==> exists|i: int|
                0 <= i < old(self).docked().len() && old(self).docked()[i].0 == name@
                    && final(self).docked() == old(self).docked().remove(i),
            r ==> final(self).platform() == platform_after_departure(
                old(self).platform(),
                old(self).queue(),
                name@,
            ),
            r ==> final(self).queue() == queue_after_departure(
                old(self).platform(),
                old(self).queue(),
                name@,
            ),
    {
        match self.position(name) {
            Some(i) => {
                let ghost before = self.docked();
                let (leaving, kind) = self.trains.remove(i);
                assert(self.docked() =~= before.remove(i as int));
                match kind {
                    TrainKind::Freight => {
                        let mut train = FreightTrain { name: leaving };
                        train.depart(self);
                    },
                    TrainKind::Passenger => {
                        let mut train = PassengerTrain { name: leaving };
                        train.depart(self);
                    },
                }
                true
            },
            None => false,
        }
    }
}

impl Mediator for TrainStation {
    closed spec fn platform(&self) -> Option<Seq<char>> {
        match self.train_on_platform {
            Some(s) => Some(s@),
            None => None,
        }
    }

    closed spec fn queue(&self) -> Seq<Seq<char>> {
        names_of(self.train_queue@)
    }

    closed spec fn docked(&self) -> Seq<(Seq<char>, TrainKind)> {
        trains_of(self.trains@)
    }

    fn notify_about_arrival(&mut self, train_name: &str) -> (r: bool) {
        if self.train_on_platform.is_some() {
            self.train_queue.push(train_name.to_string());
            assert(self.queue() =~= old(self).queue().push(train_name@));
            false
        } else {
            self.train_on_platform = Some(train_name.to_string());
            true
        }
    }

    fn notify_about_departure(&mut self, train_name: &str) {
        let on_platform = match &self.train_on_platform {
            Some(s) => str_eq(s.as_str(), train_name),
            None => false,
        };
        if on_platform {
            if self.train_queue.len() > 0 {
                let ghost q = self.queue();
                let next_train_name = self.train_queue.remove(0);
                assert(self.queue() =~= q.drop_first());
                self.train_on_platform = Some(next_train_name);
            } else {
                self.train_on_platform = None;
            }
        } else {
            let mut kept: Vec<String> = Vec::new();
            let mut i: usize = 0;
            while i < self.train_queue.len()
                invariant
                    self.train_queue == old(self).train_queue,
                    i <= self.train_queue.len(),
                    names_of(kept@) == without(names_of(self.train_queue@.subrange(0, i as int)), train_name@),
                decreases self.train_queue.len() - i,
            {
                let ghost prefix = names_of(self.train_queue@.subrange(0, i as int));
                let ghost next = names_of(self.train_queue@.subrange(0, i + 1));
                assert(next.drop_last() =~= prefix);
                assert(next.last() == self.train_queue[i as int]@);
                if !str_eq(self.train_queue[i].as_str(), train_name) {
                    kept.push(self.train_queue[i].clone());
                    assert(names_of(kept@) =~= without(prefix, train_name@).push(self.train_queue[i as int]@));
                }
                i = i + 1;
            }
            assert(self.train_queue@.subrange(0, i as int) =~= self.train_queue@);
            self.train_queue = kept;
        }
    }
}

} // verus!
