use postgres_app::models::{
    Doctor, NewPatient, OptionDoctor, NewScheduleEntry, NewTicket, OptionPatient, OptionScheduleEntry,
    OptionTicket, Patient, ScheduleEntry, Ticket, UpdatePatient, UpdateTicket,
};
use postgres_app::query::{delete_statement, insert_statement, select_statement, update_statement};
use postgres_app::schedule::schedule_view_statement;
use postgres_app::value::Value;

fn text(s: &str) -> Value {
    Value::Text(s.to_string())
}

#[test]
fn select_with_one_field_binds_only_that_field() {
    let filter = OptionPatient { name: Some("Jane".to_string()), ..Default::default() };
    let st = select_statement(&Patient::table(), &filter.filter());
    assert_eq!(
        st.sql,
        "SELECT id, name, surname, birth_date, phone_number, passport_number FROM patients \
         WHERE name = $1 AND TRUE AND TRUE AND TRUE AND TRUE"
    );
    assert_eq!(st.params, vec![text("Jane")]);
}

#[test]
fn select_with_empty_filter_has_no_constraint() {
    let st = select_statement(&Doctor::table(), &OptionDoctor::default().filter());
    assert_eq!(
        st.sql,
        "SELECT id, name, surname, speciality, phone_number, passport_number FROM doctors \
         WHERE TRUE AND TRUE AND TRUE AND TRUE AND TRUE"
    );
    assert!(st.params.is_empty());
}

#[test]
fn empty_text_and_zero_are_real_constraints() {
    let filter = OptionTicket { date: Some(String::new()), time: None, office_number: Some(0) };
    let st = select_statement(&Ticket::table(), &filter.filter());
    assert_eq!(
        st.sql,
        "SELECT id, date, time, office_number FROM tickets WHERE date = $1 AND TRUE AND office_number = $2"
    );
    assert_eq!(st.params, vec![text(""), Value::Int(0)]);
}

#[test]
fn delete_numbers_placeholders_in_column_order() {
    let filter = OptionPatient {
        surname: Some("Doe".to_string()),
        passport_number: Some("X1001".to_string()),
        ..Default::default()
    };
    let st = delete_statement(&Patient::table(), &filter.filter());
    assert_eq!(
        st.sql,
        "DELETE FROM patients WHERE TRUE AND surname = $1 AND TRUE AND TRUE AND passport_number = $2"
    );
    assert_eq!(st.params, vec![text("Doe"), text("X1001")]);
}

#[test]
fn insert_binds_every_column() {
    let new = NewTicket { date: "2024-05-01".to_string(), time: "10:00".to_string(), office_number: 12 };
    let st = insert_statement(&Ticket::table(), &new.values());
    assert_eq!(
        st.sql,
        "INSERT INTO tickets (date, time, office_number) VALUES ($1, $2, $3) \
         RETURNING id, date, time, office_number"
    );
    assert_eq!(st.params, vec![text("2024-05-01"), text("10:00"), Value::Int(12)]);
}

#[test]
fn insert_schedule_entry_statement() {
    let new = NewScheduleEntry { ticket_id: 1, doctor_id: 2, patient_id: 3 };
    let st = insert_statement(&ScheduleEntry::table(), &new.values());
    assert_eq!(
        st.sql,
        "INSERT INTO schedule (ticket_id, doctor_id, patient_id) VALUES ($1, $2, $3) \
         RETURNING id, ticket_id, doctor_id, patient_id"
    );
    assert_eq!(st.params, vec![Value::Int(1), Value::Int(2), Value::Int(3)]);
}

#[test]
fn update_keeps_absent_columns_and_numbers_condition_after_values() {
    let req = UpdateTicket {
        update_time: Some("11:30".to_string()),
        condition_office_number: Some(7),
        ..Default::default()
    };
    let st = update_statement(&Ticket::table(), &req.update(), &req.condition());
    assert_eq!(
        st.sql,
        "UPDATE tickets SET date = date, time = $1, office_number = office_number \
         WHERE TRUE AND TRUE AND office_number = $2"
    );
    assert_eq!(st.params, vec![text("11:30"), Value::Int(7)]);
}

#[test]
fn update_with_every_field_reaches_two_digit_placeholders() {
    let s = |x: &str| Some(x.to_string());
    let req = UpdatePatient {
        update_name: s("a"),
        update_surname: s("b"),
        update_birth_date: s("c"),
        update_phone_number: s("d"),
        update_passport_number: s("e"),
        condition_name: s("f"),
        condition_surname: s("g"),
        condition_birth_date: s("h"),
        condition_phone_number: s("i"),
        condition_passport_number: s("j"),
    };
    let st = update_statement(&Patient::table(), &req.update(), &req.condition());
    assert_eq!(
        st.sql,
        "UPDATE patients SET name = $1, surname = $2, birth_date = $3, phone_number = $4, \
         passport_number = $5 WHERE name = $6 AND surname = $7 AND birth_date = $8 AND \
         phone_number = $9 AND passport_number = $10"
    );
    let expected: Vec<Value> = ["a", "b", "c", "d", "e", "f", "g", "h", "i", "j"].iter().map(|x| text(x)).collect();
    assert_eq!(st.params, expected);
}

#[test]
fn bound_values_never_reach_the_text() {
    let hostile = "x'; DROP TABLE patients; --";
    let filter = OptionPatient { name: Some(hostile.to_string()), ..Default::default() };
    let st = select_statement(&Patient::table(), &filter.filter());
    assert!(!st.sql.contains("DROP"));
    assert_eq!(st.params, vec![text(hostile)]);
}

#[test]
fn schedule_view_filters_on_qualified_columns() {
    let filter = OptionScheduleEntry { ticket_id: None, doctor_id: Some(4), patient_id: None };
    let st = schedule_view_statement(&filter);
    assert!(st.sql.starts_with("SELECT schedule.id AS schedule_id, tickets.id AS ticket_id"));
    assert!(st.sql.contains("FROM schedule JOIN tickets ON schedule.ticket_id = tickets.id"));
    assert!(st.sql.ends_with(" WHERE TRUE AND schedule.doctor_id = $1 AND TRUE"));
    assert_eq!(st.params, vec![Value::Int(4)]);
}

#[test]
fn new_patient_values_follow_column_order() {
    let new = NewPatient {
        name: "Jane".to_string(),
        surname: "Doe".to_string(),
        birth_date: "1990-01-01".to_string(),
        phone_number: "555".to_string(),
        passport_number: "X1001".to_string(),
    };
    assert_eq!(
        new.values(),
        vec![text("Jane"), text("Doe"), text("1990-01-01"), text("555"), text("X1001")]
    );
}
