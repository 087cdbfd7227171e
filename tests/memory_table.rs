use postgres_app::models::{
    Doctor, NewDoctor, NewPatient, NewScheduleEntry, NewTicket, OptionDoctor, OptionPatient,
    OptionScheduleEntry, OptionTicket, Patient, ScheduleEntry, Ticket, UpdatePatient,
    UpdateScheduleEntry, UpdateTicket,
};
use postgres_app::reply::{create_reply, delete_reply, list_reply, update_reply, Reply};
use postgres_app::schedule::schedule_view;
use postgres_app::table::{MemoryTable, StoreError};
use postgres_app::value::Value;

fn jane() -> NewPatient {
    NewPatient {
        name: "Jane".to_string(),
        surname: "Doe".to_string(),
        birth_date: "1990-01-01".to_string(),
        phone_number: "555".to_string(),
        passport_number: "X1001".to_string(),
    }
}

fn john() -> NewPatient {
    NewPatient {
        name: "John".to_string(),
        surname: "Roe".to_string(),
        birth_date: "1985-03-04".to_string(),
        phone_number: "777".to_string(),
        passport_number: "X1002".to_string(),
    }
}

fn full_filter(p: &NewPatient) -> OptionPatient {
    OptionPatient {
        name: Some(p.name.clone()),
        surname: Some(p.surname.clone()),
        birth_date: Some(p.birth_date.clone()),
        phone_number: Some(p.phone_number.clone()),
        passport_number: Some(p.passport_number.clone()),
    }
}

fn patients(t: &MemoryTable, f: &OptionPatient) -> Vec<Patient> {
    t.select(&f.filter()).iter().map(|r| Patient::from_row(r).unwrap()).collect()
}

#[test]
fn created_patient_is_listed_by_its_fields() {
    let mut t = MemoryTable::new(Patient::table());
    t.insert(&john().values()).unwrap();
    let row = t.insert(&jane().values()).unwrap();
    assert_eq!(row.id, 2);
    let listed = patients(&t, &full_filter(&jane()));
    assert_eq!(listed, vec![jane().with_id(2)]);
}

#[test]
fn created_doctor_is_listed_by_its_fields() {
    let mut t = MemoryTable::new(Doctor::table());
    let new = NewDoctor {
        name: "Gregory".to_string(),
        surname: "House".to_string(),
        speciality: "diagnostics".to_string(),
        phone_number: "101".to_string(),
        passport_number: "D1".to_string(),
    };
    let row = t.insert(&new.values()).unwrap();
    let filter = OptionDoctor {
        name: Some(new.name.clone()),
        surname: Some(new.surname.clone()),
        speciality: Some(new.speciality.clone()),
        phone_number: Some(new.phone_number.clone()),
        passport_number: Some(new.passport_number.clone()),
    };
    let rows = t.select(&filter.filter());
    assert_eq!(rows.len(), 1);
    assert_eq!(Doctor::from_row(&rows[0]).unwrap(), new.with_id(row.id));
}

#[test]
fn created_ticket_and_schedule_entry_are_listed() {
    let mut tickets = MemoryTable::new(Ticket::table());
    let new = NewTicket { date: "2024-05-01".to_string(), time: "10:00".to_string(), office_number: 12 };
    let row = tickets.insert(&new.values()).unwrap();
    let filter = OptionTicket { date: Some(new.date.clone()), time: Some(new.time.clone()), office_number: Some(12) };
    let rows = tickets.select(&filter.filter());
    assert_eq!(rows.len(), 1);
    assert_eq!(Ticket::from_row(&rows[0]).unwrap(), new.with_id(row.id));

    let mut schedule = MemoryTable::new(ScheduleEntry::table());
    let entry = NewScheduleEntry { ticket_id: row.id, doctor_id: 3, patient_id: 4 };
    let created = schedule.insert(&entry.values()).unwrap();
    let filter = OptionScheduleEntry { ticket_id: Some(row.id), doctor_id: Some(3), patient_id: Some(4) };
    let rows = schedule.select(&filter.filter());
    assert_eq!(rows.len(), 1);
    assert_eq!(ScheduleEntry::from_row(&rows[0]).unwrap(), entry.with_id(created.id));
}

#[test]
fn empty_filter_lists_and_deletes_every_row() {
    let mut t = MemoryTable::new(Patient::table());
    t.insert(&jane().values()).unwrap();
    t.insert(&john().values()).unwrap();
    assert_eq!(t.select(&OptionPatient::default().filter()).len(), 2);
    assert_eq!(t.delete(&OptionPatient::default().filter()), 2);
    assert_eq!(t.len(), 0);
}

#[test]
fn empty_text_filter_is_not_a_wildcard() {
    let mut t = MemoryTable::new(Patient::table());
    t.insert(&jane().values()).unwrap();
    let filter = OptionPatient { name: Some(String::new()), ..Default::default() };
    assert!(t.select(&filter.filter()).is_empty());
    let mut tickets = MemoryTable::new(Ticket::table());
    tickets
        .insert(&NewTicket { date: "d".to_string(), time: "t".to_string(), office_number: 5 }.values())
        .unwrap();
    let zero = OptionTicket { office_number: Some(0), ..Default::default() };
    assert!(tickets.select(&zero.filter()).is_empty());
    assert_eq!(tickets.select(&OptionTicket::default().filter()).len(), 1);
}

#[test]
fn update_changes_only_given_fields() {
    let mut t = MemoryTable::new(Patient::table());
    let new = NewPatient {
        name: "A".to_string(),
        surname: "B".to_string(),
        birth_date: "2000-02-02".to_string(),
        phone_number: "1".to_string(),
        passport_number: "X".to_string(),
    };
    let row = t.insert(&new.values()).unwrap();
    let req = UpdatePatient {
        update_name: Some("C".to_string()),
        condition_passport_number: Some("X".to_string()),
        ..Default::default()
    };
    assert_eq!(t.update(&req.update(), &req.condition()), Ok(1));
    let listed = patients(&t, &OptionPatient::default());
    let mut expected = new.with_id(row.id);
    expected.name = "C".to_string();
    assert_eq!(listed, vec![expected]);
}

#[test]
fn update_with_no_condition_changes_every_row() {
    let mut t = MemoryTable::new(ScheduleEntry::table());
    t.insert(&NewScheduleEntry { ticket_id: 1, doctor_id: 1, patient_id: 1 }.values()).unwrap();
    t.insert(&NewScheduleEntry { ticket_id: 2, doctor_id: 1, patient_id: 2 }.values()).unwrap();
    let req = UpdateScheduleEntry { update_doctor_id: Some(9), ..Default::default() };
    assert_eq!(t.update(&req.update(), &req.condition()), Ok(2));
    let nines = OptionScheduleEntry { doctor_id: Some(9), ..Default::default() };
    assert_eq!(t.select(&nines.filter()).len(), 2);
}

#[test]
fn update_matching_nothing_is_not_found() {
    let mut t = MemoryTable::new(Ticket::table());
    t.insert(&NewTicket { date: "d".to_string(), time: "t".to_string(), office_number: 5 }.values()).unwrap();
    let req = UpdateTicket { update_time: Some("u".to_string()), condition_office_number: Some(6), ..Default::default() };
    let n = t.update(&req.update(), &req.condition()).unwrap();
    assert_eq!(n, 0);
    assert_eq!(update_reply(Some(n as u64)), Reply::NotFound);
    assert_eq!(update_reply(Some(1)), Reply::Updated);
    assert_eq!(update_reply(None), Reply::NotFound);
}

#[test]
fn update_to_a_taken_passport_is_refused() {
    let mut t = MemoryTable::new(Patient::table());
    t.insert(&jane().values()).unwrap();
    t.insert(&john().values()).unwrap();
    let req = UpdatePatient {
        update_passport_number: Some("X1001".to_string()),
        condition_name: Some("John".to_string()),
        ..Default::default()
    };
    assert_eq!(t.update(&req.update(), &req.condition()), Err(StoreError::Constraint));
    assert_eq!(patients(&t, &OptionPatient::default()), vec![jane().with_id(1), john().with_id(2)]);
}

#[test]
fn update_with_wrong_type_is_refused() {
    let mut t = MemoryTable::new(Ticket::table());
    t.insert(&NewTicket { date: "d".to_string(), time: "t".to_string(), office_number: 5 }.values()).unwrap();
    let update = vec![None, None, Some(Value::Text("five".to_string()))];
    let condition = vec![None, None, None];
    assert_eq!(t.update(&update, &condition), Err(StoreError::Constraint));
}

#[test]
fn delete_reports_not_found_and_success() {
    let mut t = MemoryTable::new(Patient::table());
    t.insert(&jane().values()).unwrap();
    let nobody = OptionPatient { passport_number: Some("X9999".to_string()), ..Default::default() };
    let n = t.delete(&nobody.filter());
    assert_eq!(n, 0);
    assert_eq!(delete_reply(Some(n as u64)), Reply::NotFound);
    assert_eq!(delete_reply(Some(n as u64)).status(), 404);
    let by_passport = OptionPatient { passport_number: Some("X1001".to_string()), ..Default::default() };
    let n = t.delete(&by_passport.filter());
    assert_eq!(n, 1);
    assert_eq!(delete_reply(Some(n as u64)), Reply::Deleted);
    assert_eq!(delete_reply(Some(n as u64)).status(), 204);
    assert_eq!(delete_reply(None), Reply::NotFound);
}

#[test]
fn duplicate_passport_is_refused_without_change() {
    let mut t = MemoryTable::new(Patient::table());
    t.insert(&jane().values()).unwrap();
    let mut twin = john();
    twin.passport_number = "X1001".to_string();
    let r = t.insert(&twin.values());
    assert_eq!(r, Err(StoreError::Constraint));
    assert_eq!(create_reply(r.is_ok()), Reply::ValidationFailure);
    assert_eq!(create_reply(r.is_ok()).status(), 400);
    assert_eq!(patients(&t, &OptionPatient::default()), vec![jane().with_id(1)]);
    assert_eq!(t.insert(&john().values()).unwrap().id, 2);
}

#[test]
fn malformed_row_is_refused_without_change() {
    let mut t = MemoryTable::new(Ticket::table());
    let wrong_type = vec![Value::Text("d".to_string()), Value::Text("t".to_string()), Value::Text("12".to_string())];
    assert_eq!(t.insert(&wrong_type), Err(StoreError::Constraint));
    let too_short = vec![Value::Text("d".to_string())];
    assert_eq!(t.insert(&too_short), Err(StoreError::Constraint));
    assert_eq!(t.len(), 0);
}

#[test]
fn from_row_rejects_values_of_another_table() {
    let mut t = MemoryTable::new(Ticket::table());
    let row = t.insert(&NewTicket { date: "d".to_string(), time: "t".to_string(), office_number: 5 }.values()).unwrap();
    assert_eq!(Patient::from_row(&row), None);
    assert_eq!(ScheduleEntry::from_row(&row), None);
}

#[test]
fn reply_status_codes() {
    assert_eq!(list_reply(true), Reply::Listed);
    assert_eq!(list_reply(true).status(), 200);
    assert_eq!(list_reply(false), Reply::StoreUnavailable);
    assert_eq!(list_reply(false).status(), 503);
    assert_eq!(create_reply(true).status(), 201);
    assert_eq!(Reply::Updated.status(), 200);
}

#[test]
fn patient_lifecycle_scenario() {
    let mut t = MemoryTable::new(Patient::table());
    let created = t.insert(&jane().values());
    assert_eq!(create_reply(created.is_ok()).status(), 201);
    let row = created.unwrap();
    let jane_row = Patient::from_row(&row).unwrap();
    assert_eq!(jane_row, jane().with_id(row.id));

    let by_name = OptionPatient { name: Some("Jane".to_string()), ..Default::default() };
    assert_eq!(list_reply(true).status(), 200);
    assert_eq!(patients(&t, &by_name), vec![jane_row.clone()]);

    let req = UpdatePatient {
        update_phone_number: Some("556".to_string()),
        condition_passport_number: Some("X1001".to_string()),
        ..Default::default()
    };
    let n = t.update(&req.update(), &req.condition()).unwrap();
    assert_eq!(update_reply(Some(n as u64)).status(), 200);
    let after = patients(&t, &by_name);
    assert_eq!(after.len(), 1);
    assert_eq!(after[0].phone_number, "556");
    assert_eq!(after[0].passport_number, "X1001");

    let by_passport = OptionPatient { passport_number: Some("X1001".to_string()), ..Default::default() };
    let n = t.delete(&by_passport.filter());
    assert_eq!(delete_reply(Some(n as u64)).status(), 204);
    assert!(patients(&t, &by_name).is_empty());
}

#[test]
fn schedule_view_joins_and_filters() {
    let mut tickets = MemoryTable::new(Ticket::table());
    let mut doctors = MemoryTable::new(Doctor::table());
    let mut pats = MemoryTable::new(Patient::table());
    let mut schedule = MemoryTable::new(ScheduleEntry::table());
    let t = tickets
        .insert(&NewTicket { date: "2024-05-01".to_string(), time: "10:00".to_string(), office_number: 12 }.values())
        .unwrap();
    let new_doctor = NewDoctor {
        name: "Gregory".to_string(),
        surname: "House".to_string(),
        speciality: "diagnostics".to_string(),
        phone_number: "101".to_string(),
        passport_number: "D1".to_string(),
    };
    let d = doctors.insert(&new_doctor.values()).unwrap();
    let p = pats.insert(&jane().values()).unwrap();
    let q = pats.insert(&john().values()).unwrap();
    schedule.insert(&NewScheduleEntry { ticket_id: t.id, doctor_id: d.id, patient_id: p.id }.values()).unwrap();
    schedule.insert(&NewScheduleEntry { ticket_id: t.id, doctor_id: d.id, patient_id: q.id }.values()).unwrap();
    schedule.insert(&NewScheduleEntry { ticket_id: 99, doctor_id: d.id, patient_id: p.id }.values()).unwrap();

    let all = schedule_view(&schedule, &tickets, &doctors, &pats, &OptionScheduleEntry::default());
    assert_eq!(all.len(), 2);
    assert_eq!(all[0].schedule_id, 1);
    assert_eq!(all[1].patient_name, "John");

    let only_jane = OptionScheduleEntry { patient_id: Some(p.id), ..Default::default() };
    let view = schedule_view(&schedule, &tickets, &doctors, &pats, &only_jane);
    assert_eq!(view.len(), 1);
    let v = &view[0];
    assert_eq!((v.ticket_id, v.ticket_date.as_str(), v.ticket_time.as_str(), v.ticket_office_number), (1, "2024-05-01", "10:00", 12));
    assert_eq!((v.doctor_id, v.doctor_surname.as_str(), v.doctor_speciality.as_str()), (1, "House", "diagnostics"));
    assert_eq!((v.patient_id, v.patient_name.as_str(), v.patient_passport_number.as_str()), (1, "Jane", "X1001"));
}
