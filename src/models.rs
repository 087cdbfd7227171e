use vstd::prelude::*;
use crate::query::{Column, TableDef};
use crate::table::{fits, Row};
use crate::value::{Datum, Kind, Value};

verus! {

/// The description of the API that the server publishes.
#[derive(Clone, Copy, Debug, Default)]
pub struct ApiDoc;

/// The content of an optional text field.
pub open spec fn text_datum(o: Option<String>) -> Option<Datum> {
    match o {
        Some(s) => Some(Datum::Text(s@)),
        None => None,
    }
}

/// The content of an optional integer field.
pub open spec fn int_datum(o: Option<i32>) -> Option<Datum> {
    match o {
        Some(n) => Some(Datum::Int(n)),
        None => None,
    }
}

fn text_value(o: &Option<String>) -> (r: Option<Value>)
    ensures
        r.deep_view() == text_datum(*o),
{
    match o {
        Some(s) => Some(Value::Text(s.clone())),
        None => None,
    }
}

fn int_value(o: &Option<i32>) -> (r: Option<Value>)
    ensures
        r.deep_view() == int_datum(*o),
{
    match o {
        Some(n) => Some(Value::Int(*n)),
        None => None,
    }
}

fn text_of(v: &Value) -> (r: String)
    requires
        v@.kind() == Kind::Text,
    ensures
        v@ == Datum::Text(r@),
{
    match v {
        Value::Text(s) => s.clone(),
        Value::Int(_) => String::new(),
    }
}

fn int_of(v: &Value) -> (r: i32)
    requires
        v@.kind() == Kind::Int,
    ensures
        v@ == Datum::Int(r),
{
    match v {
        Value::Int(n) => *n,
        Value::Text(_) => 0,
    }
}

fn column(name: &str, kind: Kind, unique: bool) -> (r: Column)
    ensures
        r.name@ == name@,
        r.kind == kind,
        r.unique == unique,
{
    Column { name: String::from_str(name), kind, unique }
}


/// A stored row of the patients table.
#[derive(Clone, Debug, PartialEq, Eq)]
pub struct Patient {
    pub id: i32,
    pub name: String,
    pub surname: String,
    pub birth_date: String,
    pub phone_number: String,
    pub passport_number: String,
}

/// The fields of a new row of the patients table; the store assigns its `id`.
#[derive(Clone, Debug, PartialEq, Eq)]
pub struct NewPatient {
    pub name: String,
    pub surname: String,
    pub birth_date: String,
    pub phone_number: String,
    pub passport_number: String,
}

/// A filter on the patients table: each field that is present must equal its column.
#[derive(Clone, Debug, Default, PartialEq, Eq)]
pub struct OptionPatient {
    pub name: Option<String>,
    pub surname: Option<String>,
    pub birth_date: Option<String>,
    pub phone_number: Option<String>,
    pub passport_number: Option<String>,
}

/// A change to the patients table: the `update_` fields that are present are written to every
/// row on which all `condition_` fields that are present equal their columns.
#[derive(Clone, Debug, Default, PartialEq, Eq)]
pub struct UpdatePatient {
    pub update_name: Option<String>,
    pub update_surname: Option<String>,
    pub update_birth_date: Option<String>,
    pub update_phone_number: Option<String>,
    pub update_passport_number: Option<String>,
    pub condition_name: Option<String>,
    pub condition_surname: Option<String>,
    pub condition_birth_date: Option<String>,
    pub condition_phone_number: Option<String>,
    pub condition_passport_number: Option<String>,
}

impl Patient {
    /// The column types of the patients table.
    pub open spec fn kinds() -> Seq<Kind> {
        seq![Kind::Text, Kind::Text, Kind::Text, Kind::Text, Kind::Text]
    }

    /// The values of the columns, without `id`.
    pub open spec fn data(&self) -> Seq<Datum> {
        seq![Datum::Text(self.name@), Datum::Text(self.surname@), Datum::Text(self.birth_date@), Datum::Text(self.phone_number@), Datum::Text(self.passport_number@)]
    }

    /// The table that holds patients.
    pub fn table() -> (r: TableDef)
        ensures
            r.wf(),
            r.columns@.len() == 5,
            r.name@ == "patients"@,
            r.names() == seq!["name"@, "surname"@, "birth_date"@, "phone_number"@, "passport_number"@],
            r.kinds() == Self::kinds(),
            r.unique_flags() == seq![false, false, false, false, true],
    {
        let mut columns: Vec<Column> = Vec::new();

        columns.push(column("name", Kind::Text, false));
        columns.push(column("surname", Kind::Text, false));
        columns.push(column("birth_date", Kind::Text, false));
        columns.push(column("phone_number", Kind::Text, false));
        columns.push(column("passport_number", Kind::Text, true));
        let r = TableDef { name: String::from_str("patients"), columns };
        assert(r.names() =~= seq!["name"@, "surname"@, "birth_date"@, "phone_number"@, "passport_number"@]);
        assert(r.kinds() =~= Self::kinds());
        assert(r.unique_flags() =~= seq![false, false, false, false, true]);
        r
    }

    /// The values of the columns, without `id`.
    pub fn values(&self) -> (r: Vec<Value>)
        ensures
            r@.len() == 5,
            r.deep_view() == self.data(),
    {
        let mut r: Vec<Value> = Vec::new();

        r.push(Value::Text(self.name.clone()));
        r.push(Value::Text(self.surname.clone()));
        r.push(Value::Text(self.birth_date.clone()));
        r.push(Value::Text(self.phone_number.clone()));
        r.push(Value::Text(self.passport_number.clone()));
        assert(r.deep_view() =~= self.data());
        r
    }

    /// The Patient that `row` holds, where its values fit the columns of the table.
    pub fn from_row(row: &Row) -> (r: Option<Patient>)
        ensures
            r is Some <==> fits(Self::kinds(), row.values.deep_view()),
            r matches Some(e) ==> e.id == row.id && e.data() == row.values.deep_view(),
    {
        if !crate::table::values_fit(&Self::table(), &row.values) {
            return None;
        }
        let v = &row.values;

        assert(v.deep_view()[0].kind() == Self::kinds()[0]);
        assert(v.deep_view()[1].kind() == Self::kinds()[1]);
        assert(v.deep_view()[2].kind() == Self::kinds()[2]);
        assert(v.deep_view()[3].kind() == Self::kinds()[3]);
        assert(v.deep_view()[4].kind() == Self::kinds()[4]);
        let e = Patient { id: row.id, name: text_of(&v[0]), surname: text_of(&v[1]), birth_date: text_of(&v[2]), phone_number: text_of(&v[3]), passport_number: text_of(&v[4]) };
        assert(e.data() =~= row.values.deep_view());
        Some(e)
    }
}

impl NewPatient {
    /// The values of the columns.
    pub open spec fn data(&self) -> Seq<Datum> {
        seq![Datum::Text(self.name@), Datum::Text(self.surname@), Datum::Text(self.birth_date@), Datum::Text(self.phone_number@), Datum::Text(self.passport_number@)]
    }

    /// The values of the columns, in the table's order.
    pub fn values(&self) -> (r: Vec<Value>)
        ensures
            r@.len() == 5,
            r.deep_view() == self.data(),
    {
        let mut r: Vec<Value> = Vec::new();

        r.push(Value::Text(self.name.clone()));
        r.push(Value::Text(self.surname.clone()));
        r.push(Value::Text(self.birth_date.clone()));
        r.push(Value::Text(self.phone_number.clone()));
        r.push(Value::Text(self.passport_number.clone()));
        assert(r.deep_view() =~= self.data());
        r
    }

    /// The Patient that holds these fields under `id`.
    pub fn with_id(&self, id: i32) -> (r: Patient)
        ensures
            r.id == id,
            r.data() == self.data(),
    {
        Patient { id, name: self.name.clone(), surname: self.surname.clone(), birth_date: self.birth_date.clone(), phone_number: self.phone_number.clone(), passport_number: self.passport_number.clone() }
    }
}

impl OptionPatient {
    /// The values that the filter gives, one for each column.
    pub open spec fn data(&self) -> Seq<Option<Datum>> {
        seq![text_datum(self.name), text_datum(self.surname), text_datum(self.birth_date), text_datum(self.phone_number), text_datum(self.passport_number)]
    }

    /// The values that the filter gives, in the table's order.
    pub fn filter(&self) -> (r: Vec<Option<Value>>)
        ensures
            r@.len() == 5,
            r.deep_view() == self.data(),
    {
        let mut r: Vec<Option<Value>> = Vec::new();

        r.push(text_value(&self.name));
        r.push(text_value(&self.surname));
        r.push(text_value(&self.birth_date));
        r.push(text_value(&self.phone_number));
        r.push(text_value(&self.passport_number));
        assert(r.deep_view() =~= self.data());
        r
    }
}

impl UpdatePatient {
    /// The new values, one for each column.
    pub open spec fn update_data(&self) -> Seq<Option<Datum>> {
        seq![text_datum(self.update_name), text_datum(self.update_surname), text_datum(self.update_birth_date), text_datum(self.update_phone_number), text_datum(self.update_passport_number)]
    }

    /// The condition, one value for each column.
    pub open spec fn condition_data(&self) -> Seq<Option<Datum>> {
        seq![text_datum(self.condition_name), text_datum(self.condition_surname), text_datum(self.condition_birth_date), text_datum(self.condition_phone_number), text_datum(self.condition_passport_number)]
    }

    /// The new values, in the table's order.
    pub fn update(&self) -> (r: Vec<Option<Value>>)
        ensures
            r@.len() == 5,
            r.deep_view() == self.update_data(),
    {
        let mut r: Vec<Option<Value>> = Vec::new();

        r.push(text_value(&self.update_name));
        r.push(text_value(&self.update_surname));
        r.push(text_value(&self.update_birth_date));
        r.push(text_value(&self.update_phone_number));
        r.push(text_value(&self.update_passport_number));
        assert(r.deep_view() =~= self.update_data());
        r
    }

    /// The condition, in the table's order.
    pub fn condition(&self) -> (r: Vec<Option<Value>>)
        ensures
            r@.len() == 5,
            r.deep_view() == self.condition_data(),
    {
        let mut r: Vec<Option<Value>> = Vec::new();

        r.push(text_value(&self.condition_name));
        r.push(text_value(&self.condition_surname));
        r.push(text_value(&self.condition_birth_date));
        r.push(text_value(&self.condition_phone_number));
        r.push(text_value(&self.condition_passport_number));
        assert(r.deep_view() =~= self.condition_data());
        r
    }
}


/// A stored row of the doctors table.
#[derive(Clone, Debug, PartialEq, Eq)]
pub struct Doctor {
    pub id: i32,
    pub name: String,
    pub surname: String,
    pub speciality: String,
    pub phone_number: String,
    pub passport_number: String,
}

/// The fields of a new row of the doctors table; the store assigns its `id`.
#[derive(Clone, Debug, PartialEq, Eq)]
pub struct NewDoctor {
    pub name: String,
    pub surname: String,
    pub speciality: String,
    pub phone_number: String,
    pub passport_number: String,
}

/// A filter on the doctors table: each field that is present must equal its column.
#[derive(Clone, Debug, Default, PartialEq, Eq)]
pub struct OptionDoctor {
    pub name: Option<String>,
    pub surname: Option<String>,
    pub speciality: Option<String>,
    pub phone_number: Option<String>,
    pub passport_number: Option<String>,
}

/// A change to the doctors table: the `update_` fields that are present are written to every
/// row on which all `condition_` fields that are present equal their columns.
#[derive(Clone, Debug, Default, PartialEq, Eq)]
pub struct UpdateDoctor {
    pub update_name: Option<String>,
    pub update_surname: Option<String>,
    pub update_speciality: Option<String>,
    pub update_phone_number: Option<String>,
    pub update_passport_number: Option<String>,
    pub condition_name: Option<String>,
    pub condition_surname: Option<String>,
    pub condition_speciality: Option<String>,
    pub condition_phone_number: Option<String>,
    pub condition_passport_number: Option<String>,
}

impl Doctor {
    /// The column types of the doctors table.
    pub open spec fn kinds() -> Seq<Kind> {
        seq![Kind::Text, Kind::Text, Kind::Text, Kind::Text, Kind::Text]
    }

    /// The values of the columns, without `id`.
    pub open spec fn data(&self) -> Seq<Datum> {
        seq![Datum::Text(self.name@), Datum::Text(self.surname@), Datum::Text(self.speciality@), Datum::Text(self.phone_number@), Datum::Text(self.passport_number@)]
    }

    /// The table that holds doctors.
    pub fn table() -> (r: TableDef)
        ensures
            r.wf(),
            r.columns@.len() == 5,
            r.name@ == "doctors"@,
            r.names() == seq!["name"@, "surname"@, "speciality"@, "phone_number"@, "passport_number"@],
            r.kinds() == Self::kinds(),
            r.unique_flags() == seq![false, false, false, false, true],
    {
        let mut columns: Vec<Column> = Vec::new();

        columns.push(column("name", Kind::Text, false));
        columns.push(column("surname", Kind::Text, false));
        columns.push(column("speciality", Kind::Text, false));
        columns.push(column("phone_number", Kind::Text, false));
        columns.push(column("passport_number", Kind::Text, true));
        let r = TableDef { name: String::from_str("doctors"), columns };
        assert(r.names() =~= seq!["name"@, "surname"@, "speciality"@, "phone_number"@, "passport_number"@]);
        assert(r.kinds() =~= Self::kinds());
        assert(r.unique_flags() =~= seq![false, false, false, false, true]);
        r
    }

    /// The values of the columns, without `id`.
    pub fn values(&self) -> (r: Vec<Value>)
        ensures
            r@.len() == 5,
            r.deep_view() == self.data(),
    {
        let mut r: Vec<Value> = Vec::new();

        r.push(Value::Text(self.name.clone()));
        r.push(Value::Text(self.surname.clone()));
        r.push(Value::Text(self.speciality.clone()));
        r.push(Value::Text(self.phone_number.clone()));
        r.push(Value::Text(self.passport_number.clone()));
        assert(r.deep_view() =~= self.data());
        r
    }

    /// The Doctor that `row` holds, where its values fit the columns of the table.
    pub fn from_row(row: &Row) -> (r: Option<Doctor>)
        ensures
            r is Some <==> fits(Self::kinds(), row.values.deep_view()),
            r matches Some(e) ==> e.id == row.id && e.data() == row.values.deep_view(),
    {
        if !crate::table::values_fit(&Self::table(), &row.values) {
            return None;
        }
        let v = &row.values;

        assert(v.deep_view()[0].kind() == Self::kinds()[0]);
        assert(v.deep_view()[1].kind() == Self::kinds()[1]);
        assert(v.deep_view()[2].kind() == Self::kinds()[2]);
        assert(v.deep_view()[3].kind() == Self::kinds()[3]);
        assert(v.deep_view()[4].kind() == Self::kinds()[4]);
        let e = Doctor { id: row.id, name: text_of(&v[0]), surname: text_of(&v[1]), speciality: text_of(&v[2]), phone_number: text_of(&v[3]), passport_number: text_of(&v[4]) };
        assert(e.data() =~= row.values.deep_view());
        Some(e)
    }
}

impl NewDoctor {
    /// The values of the columns.
    pub open spec fn data(&self) -> Seq<Datum> {
        seq![Datum::Text(self.name@), Datum::Text(self.surname@), Datum::Text(self.speciality@), Datum::Text(self.phone_number@), Datum::Text(self.passport_number@)]
    }

    /// The values of the columns, in the table's order.
    pub fn values(&self) -> (r: Vec<Value>)
        ensures
            r@.len() == 5,
            r.deep_view() == self.data(),
    {
        let mut r: Vec<Value> = Vec::new();

        r.push(Value::Text(self.name.clone()));
        r.push(Value::Text(self.surname.clone()));
        r.push(Value::Text(self.speciality.clone()));
        r.push(Value::Text(self.phone_number.clone()));
        r.push(Value::Text(self.passport_number.clone()));
        assert(r.deep_view() =~= self.data());
        r
    }

    /// The Doctor that holds these fields under `id`.
    pub fn with_id(&self, id: i32) -> (r: Doctor)
        ensures
            r.id == id,
            r.data() == self.data(),
    {
        Doctor { id, name: self.name.clone(), surname: self.surname.clone(), speciality: self.speciality.clone(), phone_number: self.phone_number.clone(), passport_number: self.passport_number.clone() }
    }
}

impl OptionDoctor {
    /// The values that the filter gives, one for each column.
    pub open spec fn data(&self) -> Seq<Option<Datum>> {
        seq![text_datum(self.name), text_datum(self.surname), text_datum(self.speciality), text_datum(self.phone_number), text_datum(self.passport_number)]
    }

    /// The values that the filter gives, in the table's order.
    pub fn filter(&self) -> (r: Vec<Option<Value>>)
        ensures
            r@.len() == 5,
            r.deep_view() == self.data(),
    {
        let mut r: Vec<Option<Value>> = Vec::new();

        r.push(text_value(&self.name));
        r.push(text_value(&self.surname));
        r.push(text_value(&self.speciality));
        r.push(text_value(&self.phone_number));
        r.push(text_value(&self.passport_number));
        assert(r.deep_view() =~= self.data());
        r
    }
}

impl UpdateDoctor {
    /// The new values, one for each column.
    pub open spec fn update_data(&self) -> Seq<Option<Datum>> {
        seq![text_datum(self.update_name), text_datum(self.update_surname), text_datum(self.update_speciality), text_datum(self.update_phone_number), text_datum(self.update_passport_number)]
    }

    /// The condition, one value for each column.
    pub open spec fn condition_data(&self) -> Seq<Option<Datum>> {
        seq![text_datum(self.condition_name), text_datum(self.condition_surname), text_datum(self.condition_speciality), text_datum(self.condition_phone_number), text_datum(self.condition_passport_number)]
    }

    /// The new values, in the table's order.
    pub fn update(&self) -> (r: Vec<Option<Value>>)
        ensures
            r@.len() == 5,
            r.deep_view() == self.update_data(),
    {
        let mut r: Vec<Option<Value>> = Vec::new();

        r.push(text_value(&self.update_name));
        r.push(text_value(&self.update_surname));
        r.push(text_value(&self.update_speciality));
        r.push(text_value(&self.update_phone_number));
        r.push(text_value(&self.update_passport_number));
        assert(r.deep_view() =~= self.update_data());
        r
    }

    /// The condition, in the table's order.
    pub fn condition(&self) -> (r: Vec<Option<Value>>)
        ensures
            r@.len() == 5,
            r.deep_view() == self.condition_data(),
    {
        let mut r: Vec<Option<Value>> = Vec::new();

        r.push(text_value(&self.condition_name));
        r.push(text_value(&self.condition_surname));
        r.push(text_value(&self.condition_speciality));
        r.push(text_value(&self.condition_phone_number));
        r.push(text_value(&self.condition_passport_number));
        assert(r.deep_view() =~= self.condition_data());
        r
    }
}


/// A stored row of the tickets table.
#[derive(Clone, Debug, PartialEq, Eq)]
pub struct Ticket {
    pub id: i32,
    pub date: String,
    pub time: String,
    pub office_number: i32,
}

/// The fields of a new row of the tickets table; the store assigns its `id`.
#[derive(Clone, Debug, PartialEq, Eq)]
pub struct NewTicket {
    pub date: String,
    pub time: String,
    pub office_number: i32,
}

/// A filter on the tickets table: each field that is present must equal its column.
#[derive(Clone, Debug, Default, PartialEq, Eq)]
pub struct OptionTicket {
    pub date: Option<String>,
    pub time: Option<String>,
    pub office_number: Option<i32>,
}

/// A change to the tickets table: the `update_` fields that are present are written to every
/// row on which all `condition_` fields that are present equal their columns.
#[derive(Clone, Debug, Default, PartialEq, Eq)]
pub struct UpdateTicket {
    pub update_date: Option<String>,
    pub update_time: Option<String>,
    pub update_office_number: Option<i32>,
    pub condition_date: Option<String>,
    pub condition_time: Option<String>,
    pub condition_office_number: Option<i32>,
}

impl Ticket {
    /// The column types of the tickets table.
    pub open spec fn kinds() -> Seq<Kind> {
        seq![Kind::Text, Kind::Text, Kind::Int]
    }

    /// The values of the columns, without `id`.
    pub open spec fn data(&self) -> Seq<Datum> {
        seq![Datum::Text(self.date@), Datum::Text(self.time@), Datum::Int(self.office_number)]
    }

    /// The table that holds tickets.
    pub fn table() -> (r: TableDef)
        ensures
            r.wf(),
            r.columns@.len() == 3,
            r.name@ == "tickets"@,
            r.names() == seq!["date"@, "time"@, "office_number"@],
            r.kinds() == Self::kinds(),
            r.unique_flags() == seq![false, false, false],
    {
        let mut columns: Vec<Column> = Vec::new();

        columns.push(column("date", Kind::Text, false));
        columns.push(column("time", Kind::Text, false));
        columns.push(column("office_number", Kind::Int, false));
        let r = TableDef { name: String::from_str("tickets"), columns };
        assert(r.names() =~= seq!["date"@, "time"@, "office_number"@]);
        assert(r.kinds() =~= Self::kinds());
        assert(r.unique_flags() =~= seq![false, false, false]);
        r
    }

    /// The values of the columns, without `id`.
    pub fn values(&self) -> (r: Vec<Value>)
        ensures
            r@.len() == 3,
            r.deep_view() == self.data(),
    {
        let mut r: Vec<Value> = Vec::new();

        r.push(Value::Text(self.date.clone()));
        r.push(Value::Text(self.time.clone()));
        r.push(Value::Int(self.office_number));
        assert(r.deep_view() =~= self.data());
        r
    }

    /// The Ticket that `row` holds, where its values fit the columns of the table.
    pub fn from_row(row: &Row) -> (r: Option<Ticket>)
        ensures
            r is Some <==> fits(Self::kinds(), row.values.deep_view()),
            r matches Some(e) ==> e.id == row.id && e.data() == row.values.deep_view(),
    {
        if !crate::table::values_fit(&Self::table(), &row.values) {
            return None;
        }
        let v = &row.values;

        assert(v.deep_view()[0].kind() == Self::kinds()[0]);
        assert(v.deep_view()[1].kind() == Self::kinds()[1]);
        assert(v.deep_view()[2].kind() == Self::kinds()[2]);
        let e = Ticket { id: row.id, date: text_of(&v[0]), time: text_of(&v[1]), office_number: int_of(&v[2]) };
        assert(e.data() =~= row.values.deep_view());
        Some(e)
    }
}

impl NewTicket {
    /// The values of the columns.
    pub open spec fn data(&self) -> Seq<Datum> {
        seq![Datum::Text(self.date@), Datum::Text(self.time@), Datum::Int(self.office_number)]
    }

    /// The values of the columns, in the table's order.
    pub fn values(&self) -> (r: Vec<Value>)
        ensures
            r@.len() == 3,
            r.deep_view() == self.data(),
    {
        let mut r: Vec<Value> = Vec::new();

        r.push(Value::Text(self.date.clone()));
        r.push(Value::Text(self.time.clone()));
        r.push(Value::Int(self.office_number));
        assert(r.deep_view() =~= self.data());
        r
    }

    /// The Ticket that holds these fields under `id`.
    pub fn with_id(&self, id: i32) -> (r: Ticket)
        ensures
            r.id == id,
            r.data() == self.data(),
    {
        Ticket { id, date: self.date.clone(), time: self.time.clone(), office_number: self.office_number }
    }
}

impl OptionTicket {
    /// The values that the filter gives, one for each column.
    pub open spec fn data(&self) -> Seq<Option<Datum>> {
        seq![text_datum(self.date), text_datum(self.time), int_datum(self.office_number)]
    }

    /// The values that the filter gives, in the table's order.
    pub fn filter(&self) -> (r: Vec<Option<Value>>)
        ensures
            r@.len() == 3,
            r.deep_view() == self.data(),
    {
        let mut r: Vec<Option<Value>> = Vec::new();

        r.push(text_value(&self.date));
        r.push(text_value(&self.time));
        r.push(int_value(&self.office_number));
        assert(r.deep_view() =~= self.data());
        r
    }
}

impl UpdateTicket {
    /// The new values, one for each column.
    pub open spec fn update_data(&self) -> Seq<Option<Datum>> {
        seq![text_datum(self.update_date), text_datum(self.update_time), int_datum(self.update_office_number)]
    }

    /// The condition, one value for each column.
    pub open spec fn condition_data(&self) -> Seq<Option<Datum>> {
        seq![text_datum(self.condition_date), text_datum(self.condition_time), int_datum(self.condition_office_number)]
    }

    /// The new values, in the table's order.
    pub fn update(&self) -> (r: Vec<Option<Value>>)
        ensures
            r@.len() == 3,
            r.deep_view() == self.update_data(),
    {
        let mut r: Vec<Option<Value>> = Vec::new();

        r.push(text_value(&self.update_date));
        r.push(text_value(&self.update_time));
        r.push(int_value(&self.update_office_number));
        assert(r.deep_view() =~= self.update_data());
        r
    }

    /// The condition, in the table's order.
    pub fn condition(&self) -> (r: Vec<Option<Value>>)
        ensures
            r@.len() == 3,
            r.deep_view() == self.condition_data(),
    {
        let mut r: Vec<Option<Value>> = Vec::new();

        r.push(text_value(&self.condition_date));
        r.push(text_value(&self.condition_time));
        r.push(int_value(&self.condition_office_number));
        assert(r.deep_view() =~= self.condition_data());
        r
    }
}


/// A stored row of the schedule table.
#[derive(Clone, Debug, PartialEq, Eq)]
pub struct ScheduleEntry {
    pub id: i32,
    pub ticket_id: i32,
    pub doctor_id: i32,
    pub patient_id: i32,
}

/// The fields of a new row of the schedule table; the store assigns its `id`.
#[derive(Clone, Debug, PartialEq, Eq)]
pub struct NewScheduleEntry {
    pub ticket_id: i32,
    pub doctor_id: i32,
    pub patient_id: i32,
}

/// A filter on the schedule table: each field that is present must equal its column.
#[derive(Clone, Debug, Default, PartialEq, Eq)]
pub struct OptionScheduleEntry {
    pub ticket_id: Option<i32>,
    pub doctor_id: Option<i32>,
    pub patient_id: Option<i32>,
}

/// A change to the schedule table: the `update_` fields that are present are written to every
/// row on which all `condition_` fields that are present equal their columns.
#[derive(Clone, Debug, Default, PartialEq, Eq)]
pub struct UpdateScheduleEntry {
    pub update_ticket_id: Option<i32>,
    pub update_doctor_id: Option<i32>,
    pub update_patient_id: Option<i32>,
    pub condition_ticket_id: Option<i32>,
    pub condition_doctor_id: Option<i32>,
    pub condition_patient_id: Option<i32>,
}

impl ScheduleEntry {
    /// The column types of the schedule table.
    pub open spec fn kinds() -> Seq<Kind> {
        seq![Kind::Int, Kind::Int, Kind::Int]
    }

    /// The values of the columns, without `id`.
    pub open spec fn data(&self) -> Seq<Datum> {
        seq![Datum::Int(self.ticket_id), Datum::Int(self.doctor_id), Datum::Int(self.patient_id)]
    }

    /// The table that holds schedule entries.
    pub fn table() -> (r: TableDef)
        ensures
            r.wf(),
            r.columns@.len() == 3,
            r.name@ == "schedule"@,
            r.names() == seq!["ticket_id"@, "doctor_id"@, "patient_id"@],
            r.kinds() == Self::kinds(),
            r.unique_flags() == seq![false, false, false],
    {
        let mut columns: Vec<Column> = Vec::new();

        columns.push(column("ticket_id", Kind::Int, false));
        columns.push(column("doctor_id", Kind::Int, false));
        columns.push(column("patient_id", Kind::Int, false));
        let r = TableDef { name: String::from_str("schedule"), columns };
        assert(r.names() =~= seq!["ticket_id"@, "doctor_id"@, "patient_id"@]);
        assert(r.kinds() =~= Self::kinds());
        assert(r.unique_flags() =~= seq![false, false, false]);
        r
    }

    /// The values of the columns, without `id`.
    pub fn values(&self) -> (r: Vec<Value>)
        ensures
            r@.len() == 3,
            r.deep_view() == self.data(),
    {
        let mut r: Vec<Value> = Vec::new();

        r.push(Value::Int(self.ticket_id));
        r.push(Value::Int(self.doctor_id));
        r.push(Value::Int(self.patient_id));
        assert(r.deep_view() =~= self.data());
        r
    }

    /// The ScheduleEntry that `row` holds, where its values fit the columns of the table.
    pub fn from_row(row: &Row) -> (r: Option<ScheduleEntry>)
        ensures
            r is Some <==> fits(Self::kinds(), row.values.deep_view()),
            r matches Some(e) ==> e.id == row.id && e.data() == row.values.deep_view(),
    {
        if !crate::table::values_fit(&Self::table(), &row.values) {
            return None;
        }
        let v = &row.values;

        assert(v.deep_view()[0].kind() == Self::kinds()[0]);
        assert(v.deep_view()[1].kind() == Self::kinds()[1]);
        assert(v.deep_view()[2].kind() == Self::kinds()[2]);
        let e = ScheduleEntry { id: row.id, ticket_id: int_of(&v[0]), doctor_id: int_of(&v[1]), patient_id: int_of(&v[2]) };
        assert(e.data() =~= row.values.deep_view());
        Some(e)
    }
}

impl NewScheduleEntry {
    /// The values of the columns.
    pub open spec fn data(&self) -> Seq<Datum> {
        seq![Datum::Int(self.ticket_id), Datum::Int(self.doctor_id), Datum::Int(self.patient_id)]
    }

    /// The values of the columns, in the table's order.
    pub fn values(&self) -> (r: Vec<Value>)
        ensures
            r@.len() == 3,
            r.deep_view() == self.data(),
    {
        let mut r: Vec<Value> = Vec::new();

        r.push(Value::Int(self.ticket_id));
        r.push(Value::Int(self.doctor_id));
        r.push(Value::Int(self.patient_id));
        assert(r.deep_view() =~= self.data());
        r
    }

    /// The ScheduleEntry that holds these fields under `id`.
    pub fn with_id(&self, id: i32) -> (r: ScheduleEntry)
        ensures
            r.id == id,
            r.data() == self.data(),
    {
        ScheduleEntry { id, ticket_id: self.ticket_id, doctor_id: self.doctor_id, patient_id: self.patient_id }
    }
}

impl OptionScheduleEntry {
    /// The values that the filter gives, one for each column.
    pub open spec fn data(&self) -> Seq<Option<Datum>> {
        seq![int_datum(self.ticket_id), int_datum(self.doctor_id), int_datum(self.patient_id)]
    }

    /// The values that the filter gives, in the table's order.
    pub fn filter(&self) -> (r: Vec<Option<Value>>)
        ensures
            r@.len() == 3,
            r.deep_view() == self.data(),
    {
        let mut r: Vec<Option<Value>> = Vec::new();

        r.push(int_value(&self.ticket_id));
        r.push(int_value(&self.doctor_id));
        r.push(int_value(&self.patient_id));
        assert(r.deep_view() =~= self.data());
        r
    }
}

impl UpdateScheduleEntry {
    /// The new values, one for each column.
    pub open spec fn update_data(&self) -> Seq<Option<Datum>> {
        seq![int_datum(self.update_ticket_id), int_datum(self.update_doctor_id), int_datum(self.update_patient_id)]
    }

    /// The condition, one value for each column.
    pub open spec fn condition_data(&self) -> Seq<Option<Datum>> {
        seq![int_datum(self.condition_ticket_id), int_datum(self.condition_doctor_id), int_datum(self.condition_patient_id)]
    }

    /// The new values, in the table's order.
    pub fn update(&self) -> (r: Vec<Option<Value>>)
        ensures
            r@.len() == 3,
            r.deep_view() == self.update_data(),
    {
        let mut r: Vec<Option<Value>> = Vec::new();

        r.push(int_value(&self.update_ticket_id));
        r.push(int_value(&self.update_doctor_id));
        r.push(int_value(&self.update_patient_id));
        assert(r.deep_view() =~= self.update_data());
        r
    }

    /// The condition, in the table's order.
    pub fn condition(&self) -> (r: Vec<Option<Value>>)
        ensures
            r@.len() == 3,
            r.deep_view() == self.condition_data(),
    {
        let mut r: Vec<Option<Value>> = Vec::new();

        r.push(int_value(&self.condition_ticket_id));
        r.push(int_value(&self.condition_doctor_id));
        r.push(int_value(&self.condition_patient_id));
        assert(r.deep_view() =~= self.condition_data());
        r
    }
}


/// A schedule entry together with the ticket, doctor and patient it refers to.
#[derive(Clone, Debug, PartialEq, Eq)]
pub struct FullScheduleEntry {
    pub schedule_id: i32,
    pub ticket_id: i32,
    pub ticket_date: String,
    pub ticket_time: String,
    pub ticket_office_number: i32,
    pub doctor_id: i32,
    pub doctor_name: String,
    pub doctor_surname: String,
    pub doctor_speciality: String,
    pub doctor_phone_number: String,
    pub doctor_passport_number: String,
    pub patient_id: i32,
    pub patient_name: String,
    pub patient_surname: String,
    pub patient_birth_date: String,
    pub patient_phone_number: String,
    pub patient_passport_number: String,
}

} // verus!
