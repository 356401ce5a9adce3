use design_patterns::chain::{Cashier, Department, Doctor, Medical, Patient, Reception};

fn patient() -> Patient {
    Patient { name: "John".to_string(), ..Patient::default() }
}

#[test]
fn whole_chain_handles_the_patient() {
    let mut reception = Reception::new(Doctor::new(Medical::new(Cashier::new())));
    let mut p = patient();
    reception.execute(&mut p);
    assert!(p.registration_done);
    assert!(p.doctor_check_up_done);
    assert!(p.medicine_done);
    assert!(p.payment_done);
    assert_eq!(p.name, "John");
}

#[test]
fn second_pass_changes_nothing() {
    let mut reception = Reception::new(Doctor::new(Medical::new(Cashier::new())));
    let mut p = patient();
    reception.execute(&mut p);
    reception.execute(&mut p);
    assert!(p.registration_done && p.doctor_check_up_done && p.medicine_done && p.payment_done);
}

#[test]
fn partial_chain_does_only_its_parts() {
    let mut medical = Medical::new(Cashier::new());
    let mut p = patient();
    medical.execute(&mut p);
    assert!(!p.registration_done);
    assert!(!p.doctor_check_up_done);
    assert!(p.medicine_done);
    assert!(p.payment_done);
}

#[test]
fn handle_does_one_part() {
    let mut doctor = Doctor::new(Cashier::new());
    let mut p = patient();
    doctor.handle(&mut p);
    assert!(p.doctor_check_up_done);
    assert!(!p.payment_done);
}
