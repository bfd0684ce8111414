//! The record of one service of the account, and its JSON form.

use vstd::prelude::*;
use crate::customer::date::{
    date_text, date_value, long_date_round_trip, short_date_round_trip, Date, DateFormat, Ymd,
};
use crate::customer::percentage::Percentage;
use crate::customer::price::{price_round_trip, price_text, price_value, Price};
use crate::error::ApiError;
use crate::json::{
    clone_members, lemma_members_step, members_view, number_integer, push_member,
    signed_number, unsigned_number, Json, JsonValue,
};

verus! {

/// Whether `name` is one of the members that a service record gives a meaning to.
pub open spec fn is_known(name: Seq<char>) -> bool {
    ||| name == "id"@
    ||| name == "description"@
    ||| name == "monthlyCharge"@
    ||| name == "contractStartDate"@
    ||| name == "contractEndDate"@
    ||| name == "currentContract"@
    ||| name == "billingCycleProgressPercentage"@
    ||| name == "inContract"@
    ||| name == "paymentVia"@
    ||| name == "paymentExpiry"@
    ||| name == "planChange"@
    ||| name == "serviceNumber"@
    ||| name == "serviceType"@
    ||| name == "nextBillingCycleStart"@
}

/// The members of an object that a service record gives no meaning to.
pub open spec fn unknown_members(members: Map<Seq<char>, JsonValue>) -> Map<Seq<char>, JsonValue> {
    Map::new(|name: Seq<char>| members.dom().contains(name) && !is_known(name), |name: Seq<char>| members[name])
}

/// What a service record says.
pub struct ServiceView {
    pub id: nat,
    pub description: Seq<char>,
    pub monthly_charge: nat,
    pub contract_start_date: Ymd,
    pub contract_end_date: Ymd,
    pub current_contract: nat,
    pub billing_cycle_progress_percentage: int,
    pub in_contract: bool,
    pub payment_via: Seq<char>,
    pub payment_expiry: Option<Seq<char>>,
    pub plan_change: bool,
    pub service_number: Seq<char>,
    pub service_type: Seq<char>,
    pub next_billing_cycle_start: Ymd,
    pub rest: Map<Seq<char>, JsonValue>,
}

/// The member of that name as a price in its wire format.
pub open spec fn price_member(v: JsonValue, name: Seq<char>) -> Option<nat> {
    match v.text_member(name) {
        Some(text) => price_value(text),
        None => None,
    }
}

/// The member of that name as a date written in `format`.
pub open spec fn date_member(v: JsonValue, name: Seq<char>, format: DateFormat) -> Option<Ymd> {
    match v.text_member(name) {
        Some(text) => date_value(format, text),
        None => None,
    }
}

/// The service record that a JSON value spells.
///
/// The value is an object; each known member but `paymentExpiry` is present
/// and of its type; what the object holds besides goes to `rest` unchanged.
pub open spec fn service_of(v: JsonValue) -> Option<ServiceView> {
    let id = v.unsigned_member("id"@);
    let description = v.text_member("description"@);
    let monthly_charge = price_member(v, "monthlyCharge"@);
    let contract_start_date = date_member(v, "contractStartDate"@, DateFormat::Long);
    let contract_end_date = date_member(v, "contractEndDate"@, DateFormat::Long);
    let current_contract = v.unsigned_member("currentContract"@);
    let percentage = v.signed_member("billingCycleProgressPercentage"@);
    let in_contract = v.bool_member("inContract"@);
    let payment_via = v.text_member("paymentVia"@);
    let payment_expiry = v.optional_text_member("paymentExpiry"@);
    let plan_change = v.bool_member("planChange"@);
    let service_number = v.text_member("serviceNumber"@);
    let service_type = v.text_member("serviceType"@);
    let next_billing_cycle_start = date_member(v, "nextBillingCycleStart"@, DateFormat::Short);
    if v is Object && id is Some && description is Some && monthly_charge is Some
        && contract_start_date is Some && contract_end_date is Some && current_contract is Some
        && percentage is Some && in_contract is Some && payment_via is Some
        && payment_expiry is Some && plan_change is Some && service_number is Some
        && service_type is Some && next_billing_cycle_start is Some {
        Some(
            ServiceView {
                id: id->0,
                description: description->0,
                monthly_charge: monthly_charge->0,
                contract_start_date: contract_start_date->0,
                contract_end_date: contract_end_date->0,
                current_contract: current_contract->0,
                billing_cycle_progress_percentage: percentage->0,
                in_contract: in_contract->0,
                payment_via: payment_via->0,
                payment_expiry: payment_expiry->0,
                plan_change: plan_change->0,
                service_number: service_number->0,
                service_type: service_type->0,
                next_billing_cycle_start: next_billing_cycle_start->0,
                rest: unknown_members(v->Object_0),
            },
        )
    } else {
        None
    }
}

/// The JSON value of an optional string: the string, or `null`.
pub open spec fn optional_text_json(text: Option<Seq<char>>) -> JsonValue {
    match text {
        Some(s) => JsonValue::Text(s),
        None => JsonValue::Null,
    }
}

/// The JSON object that spells a service record: the members of `rest`, and
/// over them the known members, which win where a name occurs in both.
pub open spec fn service_json(s: ServiceView) -> JsonValue {
    JsonValue::Object(
        s.rest.insert("id"@, JsonValue::Number(unsigned_number(s.id as u64))).insert(
            "description"@,
            JsonValue::Text(s.description),
        ).insert("monthlyCharge"@, JsonValue::Text(price_text(s.monthly_charge))).insert(
            "contractStartDate"@,
            JsonValue::Text(date_text(DateFormat::Long, s.contract_start_date)),
        ).insert(
            "contractEndDate"@,
            JsonValue::Text(date_text(DateFormat::Long, s.contract_end_date)),
        ).insert(
            "currentContract"@,
            JsonValue::Number(unsigned_number(s.current_contract as u64)),
        ).insert(
            "billingCycleProgressPercentage"@,
            JsonValue::Number(signed_number(s.billing_cycle_progress_percentage as i64)),
        ).insert("inContract"@, JsonValue::Bool(s.in_contract)).insert(
            "paymentVia"@,
            JsonValue::Text(s.payment_via),
        ).insert("paymentExpiry"@, optional_text_json(s.payment_expiry)).insert(
            "planChange"@,
            JsonValue::Bool(s.plan_change),
        ).insert("serviceNumber"@, JsonValue::Text(s.service_number)).insert(
            "serviceType"@,
            JsonValue::Text(s.service_type),
        ).insert(
            "nextBillingCycleStart"@,
            JsonValue::Text(date_text(DateFormat::Short, s.next_billing_cycle_start)),
        ),
    )
}

/// What a record holds beyond its known members is still there, unchanged,
/// when the record has been read and written again.
pub proof fn unknown_members_survive(v: JsonValue, name: Seq<char>)
    requires
        service_of(v) is Some,
        !is_known(name),
    ensures
        service_json(service_of(v)->0).member(name) == v.member(name),
{
}

/// The known members bear fourteen different names.
proof fn lemma_known_names_differ()
    ensures
        "id"@.len() == 2,
        "description"@.len() == 11,
        "monthlyCharge"@.len() == 13,
        "contractStartDate"@.len() == 17,
        "contractEndDate"@.len() == 15,
        "currentContract"@.len() == 15,
        "billingCycleProgressPercentage"@.len() == 30,
        "inContract"@.len() == 10,
        "paymentVia"@.len() == 10,
        "paymentExpiry"@.len() == 13,
        "planChange"@.len() == 10,
        "serviceNumber"@.len() == 13,
        "serviceType"@.len() == 11,
        "nextBillingCycleStart"@.len() == 21,
        "description"@[0] == 'd',
        "serviceType"@[0] == 's',
        "monthlyCharge"@[0] == 'm',
        "paymentExpiry"@[0] == 'p',
        "serviceNumber"@[0] == 's',
        "contractEndDate"@[1] == 'o',
        "currentContract"@[1] == 'u',
        "inContract"@[1] == 'n',
        "paymentVia"@[1] == 'a',
        "planChange"@[1] == 'l',
{
    reveal_strlit("id");
    reveal_strlit("description");
    reveal_strlit("monthlyCharge");
    reveal_strlit("contractStartDate");
    reveal_strlit("contractEndDate");
    reveal_strlit("currentContract");
    reveal_strlit("billingCycleProgressPercentage");
    reveal_strlit("inContract");
    reveal_strlit("paymentVia");
    reveal_strlit("paymentExpiry");
    reveal_strlit("planChange");
    reveal_strlit("serviceNumber");
    reveal_strlit("serviceType");
    reveal_strlit("nextBillingCycleStart");
}

/// Whether a record can be read again from what was written of it: its numbers
/// fit their fields, its dates are on the calendar, and the year of the next
/// billing cycle is one that two digits tell apart.
pub open spec fn rereadable(s: ServiceView) -> bool {
    &&& s.id <= u64::MAX
    &&& s.monthly_charge <= u32::MAX
    &&& s.contract_start_date.on_calendar()
    &&& s.contract_end_date.on_calendar()
    &&& s.current_contract <= u64::MAX
    &&& i64::MIN <= s.billing_cycle_progress_percentage <= i64::MAX
    &&& s.next_billing_cycle_start.on_calendar()
    &&& 1970 <= s.next_billing_cycle_start.year <= 2069
}

/// What is read from the written form of a record: the record, its `rest`
/// without the names of the known members.
pub open spec fn reread(s: ServiceView) -> ServiceView {
    ServiceView { rest: unknown_members(s.rest), ..s }
}

/// Reading the written form of a record gives the record back, where serde_json's
/// numbers give back the integers they were made of.
proof fn lemma_service_reread(s: ServiceView)
    requires
        rereadable(s),
        number_integer(unsigned_number(s.id as u64)) == Some(s.id as int),
        number_integer(unsigned_number(s.current_contract as u64)) == Some(
            s.current_contract as int,
        ),
        number_integer(signed_number(s.billing_cycle_progress_percentage as i64)) == Some(
            s.billing_cycle_progress_percentage,
        ),
    ensures
        service_of(service_json(s)) == Some(reread(s)),
{
    lemma_known_names_differ();
    price_round_trip(s.monthly_charge);
    long_date_round_trip(s.contract_start_date);
    long_date_round_trip(s.contract_end_date);
    short_date_round_trip(s.next_billing_cycle_start);
    let v = service_json(s);
    assert(unknown_members(v->Object_0) =~= unknown_members(s.rest));
}

/// One service of the account.
#[derive(Debug, PartialEq)]
pub struct Service {
    pub id: u64,
    pub description: String,
    pub monthly_charge: Price,
    pub contract_start_date: Date,
    pub contract_end_date: Date,
    pub current_contract: u64,
    pub billing_cycle_progress_percentage: Percentage,
    pub in_contract: bool,
    pub payment_via: String,
    pub payment_expiry: Option<String>,
    pub plan_change: bool,
    pub service_number: String,
    pub service_type: String,
    pub next_billing_cycle_start: Date,
    /// The members of the wire record that have no field of their own.
    pub rest: Vec<(String, Json)>,
}

impl View for Service {
    type V = ServiceView;

    open spec fn view(&self) -> ServiceView {
        ServiceView {
            id: self.id as nat,
            description: self.description@,
            monthly_charge: self.monthly_charge@,
            contract_start_date: self.contract_start_date@,
            contract_end_date: self.contract_end_date@,
            current_contract: self.current_contract as nat,
            billing_cycle_progress_percentage: self.billing_cycle_progress_percentage@,
            in_contract: self.in_contract,
            payment_via: self.payment_via@,
            payment_expiry: match self.payment_expiry {
                Some(s) => Some(s@),
                None => None,
            },
            plan_change: self.plan_change,
            service_number: self.service_number@,
            service_type: self.service_type@,
            next_billing_cycle_start: self.next_billing_cycle_start@,
            rest: members_view(self.rest@),
        }
    }
}

/// Whether a member of that name has a field of its own in a service record.
fn is_known_name(name: &str) -> (known: bool)
    ensures
        known == is_known(name@),
{
    name.eq("id") || name.eq("description") || name.eq("monthlyCharge") || name.eq(
        "contractStartDate",
    ) || name.eq("contractEndDate") || name.eq("currentContract") || name.eq(
        "billingCycleProgressPercentage",
    ) || name.eq("inContract") || name.eq("paymentVia") || name.eq("paymentExpiry") || name.eq(
        "planChange",
    ) || name.eq("serviceNumber") || name.eq("serviceType") || name.eq("nextBillingCycleStart")
}

/// The members of a list that have no field of their own in a service record.
fn unknown_of(members: &Vec<(String, Json)>) -> (rest: Vec<(String, Json)>)
    ensures
        members_view(rest@) == unknown_members(members_view(members@)),
{
    let mut rest: Vec<(String, Json)> = Vec::new();
    let mut i: usize = 0;
    assert(members@.take(0) =~= rest@);
    assert(members_view(rest@) =~= unknown_members(members_view(members@.take(0))));
    while i < members.len()
        invariant
            i <= members.len(),
            members_view(rest@) == unknown_members(members_view(members@.take(i as int))),
        decreases members.len() - i,
    {
        let ghost next = members@.take(i + 1);
        proof {
            assert(next.drop_last() =~= members@.take(i as int));
            lemma_members_step(next);
        }
        if is_known_name(members[i].0.as_str()) {
            assert(unknown_members(members_view(next)) =~= unknown_members(
                members_view(members@.take(i as int)),
            ));
        } else {
            let name = members[i].0.clone();
            let value = members[i].1.clone();
            proof {
                assert(rest@.push((name, value)).drop_last() =~= rest@);
                lemma_members_step(rest@.push((name, value)));
                assert(unknown_members(members_view(next)) =~= unknown_members(
                    members_view(members@.take(i as int)),
                ).insert(name@, value@));
            }
            rest.push((name, value));
        }
        i += 1;
    }
    assert(members@.take(i as int) =~= members@);
    rest
}

/// The member of that name as a price.
fn price_field(json: &Json, name: &str) -> (r: Option<Price>)
    ensures
        match r {
            Some(p) => price_member(json@, name@) == Some(p@),
            None => price_member(json@, name@) is None,
        },
{
    match json.get_text(name) {
        Some(text) => match Price::parse(text.as_str()) {
            Ok(p) => Some(p),
            Err(_) => None,
        },
        None => None,
    }
}

/// The member of that name as a date written in `format`.
fn date_field(json: &Json, name: &str, format: DateFormat) -> (r: Option<Date>)
    ensures
        match r {
            Some(d) => date_member(json@, name@, format) == Some(d@),
            None => date_member(json@, name@, format) is None,
        },
{
    match json.get_text(name) {
        Some(text) => match Date::parse(format, text.as_str()) {
            Ok(d) => Some(d),
            Err(_) => None,
        },
        None => None,
    }
}

impl Service {
    /// Reads a service record from its JSON form.
    pub fn decode(json: &Json) -> (r: Result<Service, ApiError>)
        ensures
            match r {
                Ok(s) => service_of(json@) == Some(s@),
                Err(e) => e == ApiError::Decode && service_of(json@) is None,
            },
    {
        let members = match json {
            Json::Object(members) => members,
            _ => { return Err(ApiError::Decode); },
        };
        let id = match json.get_u64("id") {
            Some(id) => id,
            None => { return Err(ApiError::Decode); },
        };
        let description = match json.get_text("description") {
            Some(text) => text.clone(),
            None => { return Err(ApiError::Decode); },
        };
        let monthly_charge = match price_field(json, "monthlyCharge") {
            Some(price) => price,
            None => { return Err(ApiError::Decode); },
        };
        let contract_start_date = match date_field(json, "contractStartDate", DateFormat::Long) {
            Some(date) => date,
            None => { return Err(ApiError::Decode); },
        };
        let contract_end_date = match date_field(json, "contractEndDate", DateFormat::Long) {
            Some(date) => date,
            None => { return Err(ApiError::Decode); },
        };
        let current_contract = match json.get_u64("currentContract") {
            Some(id) => id,
            None => { return Err(ApiError::Decode); },
        };
        let percentage = match json.get_i64("billingCycleProgressPercentage") {
            Some(percent) => Percentage(percent),
            None => { return Err(ApiError::Decode); },
        };
        let in_contract = match json.get_bool("inContract") {
            Some(flag) => flag,
            None => { return Err(ApiError::Decode); },
        };
        let payment_via = match json.get_text("paymentVia") {
            Some(text) => text.clone(),
            None => { return Err(ApiError::Decode); },
        };
        let payment_expiry = match json.get_optional_text("paymentExpiry") {
            Some(Some(text)) => Some(text.clone()),
            Some(None) => None,
            None => { return Err(ApiError::Decode); },
        };
        let plan_change = match json.get_bool("planChange") {
            Some(flag) => flag,
            None => { return Err(ApiError::Decode); },
        };
        let service_number = match json.get_text("serviceNumber") {
            Some(text) => text.clone(),
            None => { return Err(ApiError::Decode); },
        };
        let service_type = match json.get_text("serviceType") {
            Some(text) => text.clone(),
            None => { return Err(ApiError::Decode); },
        };
        let next_billing_cycle_start = match date_field(
            json,
            "nextBillingCycleStart",
            DateFormat::Short,
        ) {
            Some(date) => date,
            None => { return Err(ApiError::Decode); },
        };
        let rest = unknown_of(members);
        Ok(
            Service {
                id,
                description,
                monthly_charge,
                contract_start_date,
                contract_end_date,
                current_contract,
                billing_cycle_progress_percentage: percentage,
                in_contract,
                payment_via,
                payment_expiry,
                plan_change,
                service_number,
                service_type,
                next_billing_cycle_start,
                rest,
            },
        )
    }

    /// Writes the service record in its JSON form.
    pub fn encode(&self) -> (json: Json)
        ensures
            json@ == service_json(self@),
            1970 <= self@.next_billing_cycle_start.year <= 2069 ==> service_of(json@) == Some(
                reread(self@),
            ),
    {
        let mut members = clone_members(&self.rest);
        push_member(&mut members, "id", Json::from_u64(self.id));
        push_member(&mut members, "description", Json::Text(self.description.clone()));
        push_member(&mut members, "monthlyCharge", Json::Text(self.monthly_charge.to_display_string()));
        push_member(
            &mut members,
            "contractStartDate",
            Json::Text(self.contract_start_date.format(DateFormat::Long)),
        );
        push_member(
            &mut members,
            "contractEndDate",
            Json::Text(self.contract_end_date.format(DateFormat::Long)),
        );
        push_member(&mut members, "currentContract", Json::from_u64(self.current_contract));
        push_member(
            &mut members,
            "billingCycleProgressPercentage",
            Json::from_i64(self.billing_cycle_progress_percentage.0),
        );
        push_member(&mut members, "inContract", Json::Bool(self.in_contract));
        push_member(&mut members, "paymentVia", Json::Text(self.payment_via.clone()));
        let payment_expiry = match &self.payment_expiry {
            Some(text) => Json::Text(text.clone()),
            None => Json::Null,
        };
        push_member(&mut members, "paymentExpiry", payment_expiry);
        push_member(&mut members, "planChange", Json::Bool(self.plan_change));
        push_member(&mut members, "serviceNumber", Json::Text(self.service_number.clone()));
        push_member(&mut members, "serviceType", Json::Text(self.service_type.clone()));
        push_member(
            &mut members,
            "nextBillingCycleStart",
            Json::Text(self.next_billing_cycle_start.format(DateFormat::Short)),
        );
        proof {
            if 1970 <= self@.next_billing_cycle_start.year <= 2069 {
                lemma_service_reread(self@);
            }
        }
        Json::Object(members)
    }
}

} // verus!
