//! A patient passed along a chain of hospital departments, each of which does
//! its part unless it has been done already.
use vstd::prelude::*;

verus! {

#[derive(Default)]
pub struct Patient {
    pub name: String,
    pub registration_done: bool,
    pub doctor_check_up_done: bool,
    pub medicine_done: bool,
    pub payment_done: bool,
}

pub open spec fn registered(p: Patient) -> Patient {
    Patient { registration_done: true, ..p }
}

pub open spec fn checked_up(p: Patient) -> Patient {
    Patient { doctor_check_up_done: true, ..p }
}

pub open spec fn medicated(p: Patient) -> Patient {
    Patient { medicine_done: true, ..p }
}

pub open spec fn paid(p: Patient) -> Patient {
    Patient { payment_done: true, ..p }
}

/// A link of the chain: any one of the departments.
pub enum Desk {
    Reception(Reception),
    Doctor(Doctor),
    Medical(Medical),
    Cashier(Cashier),
}

/// The patient after the desk `d` and every desk after it have done their part.
pub closed spec fn serve(d: Desk, p: Patient) -> Patient
    decreases d,
{
    match d {
        Desk::Reception(x) => match x.next {
            Some(n) => serve(*n, registered(p)),
            None => registered(p),
        },
        Desk::Doctor(x) => match x.next {
            Some(n) => serve(*n, checked_up(p)),
            None => checked_up(p),
        },
        Desk::Medical(x) => match x.next {
            Some(n) => serve(*n, medicated(p)),
            None => medicated(p),
        },
        Desk::Cashier(x) => match x.next {
            Some(n) => serve(*n, paid(p)),
            None => paid(p),
        },
    }
}

/// The patient after the desks of `next`, if any, have done their part.
pub open spec fn serve_rest(next: Option<Box<Desk>>, p: Patient) -> Patient {
    match next {
        Some(n) => serve(*n, p),
        None => p,
    }
}

/// Which parts the desks of a chain do: registration, check-up, medicine, payment.
pub closed spec fn chain_parts(d: Desk) -> (bool, bool, bool, bool)
    decreases d,
{
    match d {
        Desk::Reception(x) => match x.next {
            Some(n) => {
                let f = chain_parts(*n);
                (true, f.1, f.2, f.3)
            },
            None => (true, false, false, false),
        },
        Desk::Doctor(x) => match x.next {
            Some(n) => {
                let f = chain_parts(*n);
                (f.0, true, f.2, f.3)
            },
            None => (false, true, false, false),
        },
        Desk::Medical(x) => match x.next {
            Some(n) => {
                let f = chain_parts(*n);
                (f.0, f.1, true, f.3)
            },
            None => (false, false, true, false),
        },
        Desk::Cashier(x) => match x.next {
            Some(n) => {
                let f = chain_parts(*n);
                (f.0, f.1, f.2, true)
            },
            None => (false, false, false, true),
        },
    }
}

/// The patient with the given parts marked as done as well.
pub open spec fn with_parts(p: Patient, f: (bool, bool, bool, bool)) -> Patient {
    Patient {
        name: p.name,
        registration_done: p.registration_done || f.0,
        doctor_check_up_done: p.doctor_check_up_done || f.1,
        medicine_done: p.medicine_done || f.2,
        payment_done: p.payment_done || f.3,
    }
}

/// Serving a patient marks the parts of the chain as done and nothing else.
pub proof fn lemma_serve_parts(d: Desk, p: Patient)
    ensures
        serve(d, p) == with_parts(p, chain_parts(d)),
    decreases d,
{
    match d {
        Desk::Reception(x) => if let Some(n) = x.next {
            lemma_serve_parts(*n, registered(p));
        },
        Desk::Doctor(x) => if let Some(n) = x.next {
            lemma_serve_parts(*n, checked_up(p));
        },
        Desk::Medical(x) => if let Some(n) = x.next {
            lemma_serve_parts(*n, medicated(p));
        },
        Desk::Cashier(x) => if let Some(n) = x.next {
            lemma_serve_parts(*n, paid(p));
        },
    }
}

/// Serving a patient a second time changes nothing: every desk finds its part done.
pub proof fn lemma_serve_twice(d: Desk, p: Patient)
    ensures
        serve(d, serve(d, p)) == serve(d, p),
{
    lemma_serve_parts(d, p);
    lemma_serve_parts(d, serve(d, p));
}

/// A single role of the objects that make up a chain: a department handles the
/// patient, then hands them on to the next department, if any.
pub trait Department: Sized {
    /// The patient after this department alone has done its part.
    spec fn work(&self, p: Patient) -> Patient;

    /// This department as a link of a chain.
    spec fn as_desk(&self) -> Desk;

    spec fn next_desk(&self) -> Option<Box<Desk>>;

    fn handle(&mut self, patient: &mut Patient)
        ensures
            *final(self) == *old(self),
            *final(patient) == old(self).work(*old(patient)),
    ;

    fn next(&self) -> (r: &Option<Box<Desk>>)
        ensures
            *r == self.next_desk(),
    ;

    fn into_desk(self) -> (r: Desk)
        ensures
            r == self.as_desk(),
    ;

    /// Handles the patient, then passes them along the rest of the chain.
    fn execute(&mut self, patient: &mut Patient)
        ensures
            *final(self) == *old(self),
            *final(patient) == serve(old(self).as_desk(), *old(patient)),
    ;
}

/// Passes the patient along the desks of `next`.
pub fn serve_chain(next: &Option<Box<Desk>>, patient: &mut Patient)
    ensures
        *final(patient) == serve_rest(*next, *old(patient)),
    decreases next,
{
    match next {
        None => {},
        Some(d) => match &**d {
            Desk::Reception(x) => {
                register(patient);
                serve_chain(&x.next, patient);
            },
            Desk::Doctor(x) => {
                check_up(patient);
                serve_chain(&x.next, patient);
            },
            Desk::Medical(x) => {
                give_medicine(patient);
                serve_chain(&x.next, patient);
            },
            Desk::Cashier(x) => {
                take_payment(patient);
                serve_chain(&x.next, patient);
            },
        },
    }
}

fn register(patient: &mut Patient)
    ensures
        *final(patient) == registered(*old(patient)),
{
    if !patient.registration_done {
        patient.registration_done = true;
    }
}

fn check_up(patient: &mut Patient)
    ensures
        *final(patient) == checked_up(*old(patient)),
{
    if !patient.doctor_check_up_done {
        patient.doctor_check_up_done = true;
    }
}

fn give_medicine(patient: &mut Patient)
    ensures
        *final(patient) == medicated(*old(patient)),
{
    if !patient.medicine_done {
        patient.medicine_done = true;
    }
}

fn take_payment(patient: &mut Patient)
    ensures
        *final(patient) == paid(*old(patient)),
{
    if !patient.payment_done {
        patient.payment_done = true;
    }
}

/// Helps to wrap a department into a link of a chain.
pub fn into_next<D: Department>(department: D) -> (r: Option<Box<Desk>>)
    ensures
        r == Some(Box::new(department.as_desk())),
{
    Some(Box::new(department.into_desk()))
}

pub struct Cashier {
    next: Option<Box<Desk>>,
}

impl Cashier {
    /// The last desk of a chain.
    pub fn new() -> (r: Self)
        ensures
            r.next_desk() is None,
            chain_parts(r.as_desk()) == (false, false, false, true),
    {
        Cashier { next: None }
    }
}

impl Department for Cashier {
    open spec fn work(&self, p: Patient) -> Patient {
        paid(p)
    }

    closed spec fn as_desk(&self) -> Desk {
        Desk::Cashier(*self)
    }

    closed spec fn next_desk(&self) -> Option<Box<Desk>> {
        self.next
    }

    fn handle(&mut self, patient: &mut Patient) {
        take_payment(patient);
    }

    fn execute(&mut self, patient: &mut Patient) {
        take_payment(patient);
        serve_chain(&self.next, patient);
    }

    fn next(&self) -> (r: &Option<Box<Desk>>) {
        &self.next
    }

    fn into_desk(self) -> (r: Desk) {
        Desk::Cashier(self)
    }
}

pub struct Doctor {
    next: Option<Box<Desk>>,
}

impl Doctor {
    pub fn new<D: Department>(next: D) -> (r: Self)
        ensures
            r.next_desk() == Some(Box::new(next.as_desk())),
            ({
                let f = chain_parts(next.as_desk());
                chain_parts(r.as_desk()) == (f.0, true, f.2, f.3)
            }),
    {
        Doctor { next: into_next(next) }
    }
}

impl Department for Doctor {
    open spec fn work(&self, p: Patient) -> Patient {
        checked_up(p)
    }

    closed spec fn as_desk(&self) -> Desk {
        Desk::Doctor(*self)
    }

    closed spec fn next_desk(&self) -> Option<Box<Desk>> {
        self.next
    }

    fn handle(&mut self, patient: &mut Patient) {
        check_up(patient);
    }

    fn execute(&mut self, patient: &mut Patient) {
        check_up(patient);
        serve_chain(&self.next, patient);
    }

    fn next(&self) -> (r: &Option<Box<Desk>>) {
        &self.next
    }

    fn into_desk(self) -> (r: Desk) {
        Desk::Doctor(self)
    }
}

pub struct Medical {
    next: Option<Box<Desk>>,
}

impl Medical {
    pub fn new<D: Department>(next: D) -> (r: Self)
        ensures
            r.next_desk() == Some(Box::new(next.as_desk())),
            ({
                let f = chain_parts(next.as_desk());
                chain_parts(r.as_desk()) == (f.0, f.1, true, f.3)
            }),
    {
        Medical { next: into_next(next) }
    }
}

impl Department for Medical {
    open spec fn work(&self, p: Patient) -> Patient {
        medicated(p)
    }

    closed spec fn as_desk(&self) -> Desk {
        Desk::Medical(*self)
    }

    closed spec fn next_desk(&self) -> Option<Box<Desk>> {
        self.next
    }

    fn handle(&mut self, patient: &mut Patient) {
        give_medicine(patient);
    }

    fn execute(&mut self, patient: &mut Patient) {
        give_medicine(patient);
        serve_chain(&self.next, patient);
    }

    fn next(&self) -> (r: &Option<Box<Desk>>) {
        &self.next
    }

    fn into_desk(self) -> (r: Desk) {
        Desk::Medical(self)
    }
}

pub struct Reception {
    next: Option<Box<Desk>>,
}

impl Reception {
    pub fn new<D: Department>(next: D) -> (r: Self)
        ensures
            r.next_desk() == Some(Box::new(next.as_desk())),
            ({
                let f = chain_parts(next.as_desk());
                chain_parts(r.as_desk()) == (true, f.1, f.2, f.3)
            }),
    {
        Reception { next: into_next(next) }
    }
}

impl Department for Reception {
    open spec fn work(&self, p: Patient) -> Patient {
        registered(p)
    }

    closed spec fn as_desk(&self) -> Desk {
        Desk::Reception(*self)
    }

    closed spec fn next_desk(&self) -> Option<Box<Desk>> {
        self.next
    }

    fn handle(&mut self, patient: &mut Patient) {
        register(patient);
    }

    fn execute(&mut self, patient: &mut Patient) {
        register(patient);
        serve_chain(&self.next, patient);
    }

    fn next(&self) -> (r: &Option<Box<Desk>>) {
        &self.next
    }

    fn into_desk(self) -> (r: Desk) {
        Desk::Reception(self)
    }
}

} // verus!
