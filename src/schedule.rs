use vstd::prelude::*;
use crate::models::{Doctor, FullScheduleEntry, OptionScheduleEntry, Patient, ScheduleEntry, Ticket};
use crate::query::{condition_terms, joined, present_values, push_conditions, Column, Statement};
use crate::table::{fits, matching, MemoryTable, Record, Row};
use crate::value::{Datum, Kind, Value};

verus! {

/// The start of the statement that lists schedule entries with their ticket, doctor and
/// patient, up to its conditions.
pub open spec fn schedule_view_head() -> Seq<char> {
    "SELECT schedule.id AS schedule_id, tickets.id AS ticket_id, tickets.date AS ticket_date, tickets.time AS ticket_time, tickets.office_number AS ticket_office_number, doctors.id AS doctor_id, doctors.name AS doctor_name, doctors.surname AS doctor_surname, doctors.speciality AS doctor_speciality, doctors.phone_number AS doctor_phone_number, doctors.passport_number AS doctor_passport_number, patients.id AS patient_id, patients.name AS patient_name, patients.surname AS patient_surname, patients.birth_date AS patient_birth_date, patients.phone_number AS patient_phone_number, patients.passport_number AS patient_passport_number FROM schedule JOIN tickets ON schedule.ticket_id = tickets.id JOIN doctors ON schedule.doctor_id = doctors.id JOIN patients ON schedule.patient_id = patients.id WHERE "@
}

/// The columns that the filter of the joined view constrains, named by their table so that
/// they cannot be confused with the `id` columns of the joined tables.
pub open spec fn schedule_view_columns() -> Seq<Seq<char>> {
    seq!["schedule.ticket_id"@, "schedule.doctor_id"@, "schedule.patient_id"@]
}

pub open spec fn schedule_view_sql(filter: Seq<Option<crate::value::Datum>>) -> Seq<char> {
    schedule_view_head() + joined(condition_terms(schedule_view_columns(), filter, 0), " AND "@)
}

/// Builds the statement that lists the schedule entries that `filter` matches, each with
/// the ticket, doctor and patient it refers to.
pub fn schedule_view_statement(filter: &OptionScheduleEntry) -> (r: Statement)
    ensures
        r.sql@ == schedule_view_sql(filter.data()),
        r.params.deep_view() == present_values(filter.data()),
{
    let mut sql = String::from_str(
        "SELECT schedule.id AS schedule_id, tickets.id AS ticket_id, tickets.date AS ticket_date, tickets.time AS ticket_time, tickets.office_number AS ticket_office_number, doctors.id AS doctor_id, doctors.name AS doctor_name, doctors.surname AS doctor_surname, doctors.speciality AS doctor_speciality, doctors.phone_number AS doctor_phone_number, doctors.passport_number AS doctor_passport_number, patients.id AS patient_id, patients.name AS patient_name, patients.surname AS patient_surname, patients.birth_date AS patient_birth_date, patients.phone_number AS patient_phone_number, patients.passport_number AS patient_passport_number FROM schedule JOIN tickets ON schedule.ticket_id = tickets.id JOIN doctors ON schedule.doctor_id = doctors.id JOIN patients ON schedule.patient_id = patients.id WHERE ",
    );
    let mut cols: Vec<Column> = Vec::new();
    cols.push(Column { name: String::from_str("schedule.ticket_id"), kind: Kind::Int, unique: false });
    cols.push(Column { name: String::from_str("schedule.doctor_id"), kind: Kind::Int, unique: false });
    cols.push(Column { name: String::from_str("schedule.patient_id"), kind: Kind::Int, unique: false });
    assert(Seq::new(cols@.len(), |i: int| cols@[i].name@) =~= schedule_view_columns());
    let f = filter.filter();
    assert(f.deep_view().len() == f@.len());
    let mut params: Vec<Value> = Vec::new();
    push_conditions(&mut sql, &mut params, &cols, &f, 0);
    assert(params.deep_view() =~= present_values(filter.data()));
    Statement { sql, params }
}

/// The last record with `id`.
pub open spec fn find_id(rows: Seq<Record>, id: i32) -> Option<Record>
    decreases rows.len(),
{
    if rows.len() == 0 {
        None
    } else if rows.last().id == id {
        Some(rows.last())
    } else {
        find_id(rows.drop_last(), id)
    }
}

/// The integer in column `i` of `data`.
pub open spec fn int_at(data: Seq<Datum>, i: int) -> i32 {
    match data[i] {
        Datum::Int(n) => n,
        Datum::Text(_) => 0,
    }
}

/// Each schedule entry with the ticket, doctor and patient it refers to, in the order of the
/// entries; an entry that refers to a missing row is left out.
pub open spec fn joined_view(
    entries: Seq<Record>,
    tickets: Seq<Record>,
    doctors: Seq<Record>,
    patients: Seq<Record>,
) -> Seq<(Record, Record, Record, Record)>
    decreases entries.len(),
{
    if entries.len() == 0 {
        Seq::empty()
    } else {
        let rest = joined_view(entries.drop_last(), tickets, doctors, patients);
        let e = entries.last();
        match (
            find_id(tickets, int_at(e.data, 0)),
            find_id(doctors, int_at(e.data, 1)),
            find_id(patients, int_at(e.data, 2)),
        ) {
            (Some(t), Some(d), Some(p)) => rest.push((e, t, d, p)),
            _ => rest,
        }
    }
}

impl FullScheduleEntry {
    /// Whether this joined entry holds the schedule entry `e` with ticket `t`, doctor `d`
    /// and patient `p`.
    pub open spec fn describes(self, parts: (Record, Record, Record, Record)) -> bool {
        let (e, t, d, p) = parts;
        &&& self.schedule_id == e.id
        &&& self.ticket_id == t.id
        &&& t.data == seq![
            Datum::Text(self.ticket_date@),
            Datum::Text(self.ticket_time@),
            Datum::Int(self.ticket_office_number),
        ]
        &&& self.doctor_id == d.id
        &&& d.data == seq![
            Datum::Text(self.doctor_name@),
            Datum::Text(self.doctor_surname@),
            Datum::Text(self.doctor_speciality@),
            Datum::Text(self.doctor_phone_number@),
            Datum::Text(self.doctor_passport_number@),
        ]
        &&& self.patient_id == p.id
        &&& p.data == seq![
            Datum::Text(self.patient_name@),
            Datum::Text(self.patient_surname@),
            Datum::Text(self.patient_birth_date@),
            Datum::Text(self.patient_phone_number@),
            Datum::Text(self.patient_passport_number@),
        ]
    }
}

/// The index of the last row with `id`.
fn find_row(rows: &Vec<Row>, id: i32) -> (r: Option<usize>)
    ensures
        match r {
            Some(k) => k < rows@.len() && find_id(rows.deep_view(), id) == Some(rows.deep_view()[k as int]),
            None => find_id(rows.deep_view(), id) is None,
        },
{
    let ghost all = rows.deep_view();
    let mut k: usize = rows.len();
    assert(all.take(k as int) =~= all);
    while k > 0
        invariant
            k <= rows@.len(),
            all == rows.deep_view(),
            find_id(all, id) == find_id(all.take(k as int), id),
        decreases k,
    {
        assert(all.take(k as int).drop_last() =~= all.take(k - 1));
        if rows[k - 1].id == id {
            return Some(k - 1);
        }
        k = k - 1;
    }
    None
}

proof fn lemma_joined_push(
    entries: Seq<Record>,
    tickets: Seq<Record>,
    doctors: Seq<Record>,
    patients: Seq<Record>,
    i: int,
)
    requires
        0 <= i < entries.len(),
    ensures
        joined_view(entries.take(i + 1), tickets, doctors, patients) == match (
            find_id(tickets, int_at(entries[i].data, 0)),
            find_id(doctors, int_at(entries[i].data, 1)),
            find_id(patients, int_at(entries[i].data, 2)),
        ) {
            (Some(t), Some(d), Some(p)) => joined_view(entries.take(i), tickets, doctors, patients).push(
                (entries[i], t, d, p),
            ),
            _ => joined_view(entries.take(i), tickets, doctors, patients),
        },
{
    assert(entries.take(i + 1).drop_last() =~= entries.take(i));
}

/// Lists the schedule entries that `filter` matches, each with the ticket, doctor and patient
/// it refers to; an entry that refers to a missing row is left out.
pub fn schedule_view(
    schedule: &MemoryTable,
    tickets: &MemoryTable,
    doctors: &MemoryTable,
    patients: &MemoryTable,
    filter: &OptionScheduleEntry,
) -> (r: Vec<FullScheduleEntry>)
    requires
        schedule.wf(),
        tickets.wf(),
        doctors.wf(),
        patients.wf(),
        schedule.def.kinds() == ScheduleEntry::kinds(),
        tickets.def.kinds() == Ticket::kinds(),
        doctors.def.kinds() == Doctor::kinds(),
        patients.def.kinds() == Patient::kinds(),
    ensures
        ({
            let j = joined_view(
                matching(schedule.records(), filter.data()),
                tickets.records(),
                doctors.records(),
                patients.records(),
            );
            &&& r@.len() == j.len()
            &&& forall|i: int| 0 <= i < j.len() ==> (#[trigger] r@[i]).describes(j[i])
        }),
{
    let f = filter.filter();
    assert(f.deep_view().len() == f@.len());
    assert(schedule.def.kinds().len() == schedule.def.columns@.len());
    let entries = schedule.select(&f);
    let ghost es = entries.deep_view();
    let ghost j = joined_view(es, tickets.records(), doctors.records(), patients.records());
    let mut out: Vec<FullScheduleEntry> = Vec::new();
    let mut i: usize = 0;
    proof {
        crate::table::lemma_matching_fits(schedule.def, schedule.next_id, schedule.records(), filter.data());
    }
    assert(es.take(0) =~= Seq::<Record>::empty());
    while i < entries.len()
        invariant
            i <= entries@.len(),
            es == entries.deep_view(),
            es == matching(schedule.records(), filter.data()),
            forall|k: int| 0 <= k < es.len() ==> fits(ScheduleEntry::kinds(), #[trigger] es[k].data),
            tickets.wf(),
            doctors.wf(),
            patients.wf(),
            tickets.def.kinds() == Ticket::kinds(),
            doctors.def.kinds() == Doctor::kinds(),
            patients.def.kinds() == Patient::kinds(),
            ({
                let jj = joined_view(es.take(i as int), tickets.records(), doctors.records(), patients.records());
                &&& out@.len() == jj.len()
                &&& forall|k: int| 0 <= k < jj.len() ==> (#[trigger] out@[k]).describes(jj[k])
            }),
        decreases entries@.len() - i,
    {
        proof {
            lemma_joined_push(es, tickets.records(), doctors.records(), patients.records(), i as int);
            assert(fits(ScheduleEntry::kinds(), es[i as int].data));
        }
        let entry = ScheduleEntry::from_row(&entries[i]);
        match entry {
            Some(e) => {
                assert(int_at(es[i as int].data, 0) == e.ticket_id);
                assert(int_at(es[i as int].data, 1) == e.doctor_id);
                assert(int_at(es[i as int].data, 2) == e.patient_id);
                let ti = find_row(&tickets.rows, e.ticket_id);
                let di = find_row(&doctors.rows, e.doctor_id);
                let pi = find_row(&patients.rows, e.patient_id);
                match (ti, di, pi) {
                    (Some(ti), Some(di), Some(pi)) => {
                        assert(fits(Ticket::kinds(), tickets.records()[ti as int].data));
                        assert(fits(Doctor::kinds(), doctors.records()[di as int].data));
                        assert(fits(Patient::kinds(), patients.records()[pi as int].data));
                        let t = Ticket::from_row(&tickets.rows[ti]);
                        let d = Doctor::from_row(&doctors.rows[di]);
                        let p = Patient::from_row(&patients.rows[pi]);
                        match (t, d, p) {
                            (Some(t), Some(d), Some(p)) => {
                                let ghost before = out@;
                                out.push(
                                    FullScheduleEntry {
                                        schedule_id: e.id,
                                        ticket_id: t.id,
                                        ticket_date: t.date,
                                        ticket_time: t.time,
                                        ticket_office_number: t.office_number,
                                        doctor_id: d.id,
                                        doctor_name: d.name,
                                        doctor_surname: d.surname,
                                        doctor_speciality: d.speciality,
                                        doctor_phone_number: d.phone_number,
                                        doctor_passport_number: d.passport_number,
                                        patient_id: p.id,
                                        patient_name: p.name,
                                        patient_surname: p.surname,
                                        patient_birth_date: p.birth_date,
                                        patient_phone_number: p.phone_number,
                                        patient_passport_number: p.passport_number,
                                    },
                                );
                                let ghost jj = joined_view(
                                    es.take(i + 1),
                                    tickets.records(),
                                    doctors.records(),
                                    patients.records(),
                                );
                                assert forall|k: int| 0 <= k < jj.len() implies (#[trigger] out@[k]).describes(
                                    jj[k],
                                ) by {
                                    if k < before.len() {
                                        assert(out@[k] == before[k]);
                                    }
                                }
                            },
                            _ => {},
                        }
                    },
                    _ => {},
                }
            },
            None => {},
        }
        i = i + 1;
    }
    assert(es.take(entries@.len() as int) =~= es);
    out
}

} // verus!
