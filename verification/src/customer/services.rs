//! The services of an account, list by list, and the query that asks for them.

use vstd::prelude::*;
use crate::client::Query;
use crate::customer::service::{service_of, Service, ServiceView};
use crate::error::ApiError;
use crate::json::{items_view, Json, JsonValue};

verus! {

/// The envelope of the wire: an object whose member `data` is what is meant.
#[derive(Debug)]
pub struct Data<T> {
    data: T,
}

impl<T> Data<T> {
    /// What the envelope holds.
    pub closed spec fn content(self) -> T {
        self.data
    }

    /// The envelope around `data`.
    pub fn new(data: T) -> (envelope: Data<T>)
        ensures
            envelope.content() == data,
    {
        Data { data }
    }

    /// Takes the content out of the envelope.
    pub fn unwrap(self) -> (data: T)
        ensures
            data == self.content(),
    {
        self.data
    }
}

/// What an envelope holds on the wire: the member `data` of an object.
pub open spec fn enveloped(v: JsonValue) -> Option<JsonValue> {
    v.member("data"@)
}

impl<'a> Data<&'a Json> {
    /// Opens the envelope that a JSON document is, and hands out what it holds.
    pub fn proxy(json: &'a Json) -> (r: Option<&'a Json>)
        ensures
            match r {
                Some(data) => enveloped(json@) == Some(data@),
                None => enveloped(json@) is None,
            },
    {
        match json.get("data") {
            Some(data) => Some(Data::new(data).unwrap()),
            None => None,
        }
    }
}

/// A service record under the name of the list that it came in.
pub trait ServiceKind: Sized {
    /// What the record says.
    spec fn record(&self) -> ServiceView;

    /// The record as a service of this kind.
    fn from_service(service: Service) -> (kind: Self)
        ensures
            kind.record() == service@,
    ;

    /// The record itself.
    fn as_service(&self) -> (service: &Service)
        ensures
            service@ == self.record(),
    ;
}

/// A broadband service.
#[derive(Debug, PartialEq)]
pub struct BroadbandService {
    pub service: Service,
}

/// A mobile service.
#[derive(Debug, PartialEq)]
pub struct MobileService {
    pub service: Service,
}

/// A landline service.
#[derive(Debug, PartialEq)]
pub struct PhoneService {
    pub service: Service,
}

/// A voice-over-IP service.
#[derive(Debug, PartialEq)]
pub struct VoipService {
    pub service: Service,
}

impl AsRef<Service> for BroadbandService {
    /// The record that this service is: its field `service`, not a copy.
    fn as_ref(&self) -> (service: &Service)
        ensures
            *service == self.service,
            service@ == self.record(),
    {
        &self.service
    }
}

impl ServiceKind for BroadbandService {
    open spec fn record(&self) -> ServiceView {
        self.service@
    }

    fn from_service(service: Service) -> (kind: Self) {
        BroadbandService { service }
    }

    fn as_service(&self) -> (service: &Service) {
        &self.service
    }
}

impl AsRef<Service> for MobileService {
    /// The record that this service is: its field `service`, not a copy.
    fn as_ref(&self) -> (service: &Service)
        ensures
            *service == self.service,
            service@ == self.record(),
    {
        &self.service
    }
}

impl ServiceKind for MobileService {
    open spec fn record(&self) -> ServiceView {
        self.service@
    }

    fn from_service(service: Service) -> (kind: Self) {
        MobileService { service }
    }

    fn as_service(&self) -> (service: &Service) {
        &self.service
    }
}

impl AsRef<Service> for PhoneService {
    /// The record that this service is: its field `service`, not a copy.
    fn as_ref(&self) -> (service: &Service)
        ensures
            *service == self.service,
            service@ == self.record(),
    {
        &self.service
    }
}

impl ServiceKind for PhoneService {
    open spec fn record(&self) -> ServiceView {
        self.service@
    }

    fn from_service(service: Service) -> (kind: Self) {
        PhoneService { service }
    }

    fn as_service(&self) -> (service: &Service) {
        &self.service
    }
}

impl AsRef<Service> for VoipService {
    /// The record that this service is: its field `service`, not a copy.
    fn as_ref(&self) -> (service: &Service)
        ensures
            *service == self.service,
            service@ == self.record(),
    {
        &self.service
    }
}

impl ServiceKind for VoipService {
    open spec fn record(&self) -> ServiceView {
        self.service@
    }

    fn from_service(service: Service) -> (kind: Self) {
        VoipService { service }
    }

    fn as_service(&self) -> (service: &Service) {
        &self.service
    }
}

/// What a list of services of one kind says, record by record.
pub open spec fn records<K: ServiceKind>(list: Seq<K>) -> Seq<ServiceView> {
    Seq::new(list.len(), |i: int| list[i].record())
}

/// The service records that a list of JSON values spells, where each spells one.
pub open spec fn services_in(items: Seq<JsonValue>) -> Option<Seq<ServiceView>> {
    if forall|i: int| 0 <= i < items.len() ==> service_of(#[trigger] items[i]) is Some {
        Some(Seq::new(items.len(), |i: int| service_of(items[i])->0))
    } else {
        None
    }
}

/// The services that stand under `kind` in a JSON object: the member of that
/// name is an envelope around an array of service records.
pub open spec fn listed_services(v: JsonValue, kind: Seq<char>) -> Option<Seq<ServiceView>> {
    match v.member(kind) {
        Some(envelope) => match enveloped(envelope) {
            Some(JsonValue::Array(items)) => services_in(items),
            _ => None,
        },
        None => None,
    }
}

/// What the services of an account say.
pub struct ServicesView {
    pub broadband: Seq<ServiceView>,
    pub mobile: Seq<ServiceView>,
    pub phone: Seq<ServiceView>,
    pub voip: Seq<ServiceView>,
}

/// The services that a JSON document spells: an object with the four lists.
pub open spec fn services_of(v: JsonValue) -> Option<ServicesView> {
    match (
        listed_services(v, "broadband"@),
        listed_services(v, "mobile"@),
        listed_services(v, "phone"@),
        listed_services(v, "voip"@),
    ) {
        (Some(broadband), Some(mobile), Some(phone), Some(voip)) => Some(
            ServicesView { broadband, mobile, phone, voip },
        ),
        _ => None,
    }
}

/// The services of an account, by kind.
#[derive(Debug, PartialEq)]
pub struct Services {
    pub broadband: Vec<BroadbandService>,
    pub mobile: Vec<MobileService>,
    pub phone: Vec<PhoneService>,
    pub voip: Vec<VoipService>,
}

impl View for Services {
    type V = ServicesView;

    open spec fn view(&self) -> ServicesView {
        ServicesView {
            broadband: records(self.broadband@),
            mobile: records(self.mobile@),
            phone: records(self.phone@),
            voip: records(self.voip@),
        }
    }
}

/// Reads the list of services that stands under `kind`.
fn decode_list<K: ServiceKind>(json: &Json, kind: &str) -> (r: Option<Vec<K>>)
    ensures
        match r {
            Some(list) => listed_services(json@, kind@) == Some(records(list@)),
            None => listed_services(json@, kind@) is None,
        },
{
    let envelope = match json.get(kind) {
        Some(envelope) => envelope,
        None => { return None; },
    };
    let data = match Data::proxy(envelope) {
        Some(data) => data,
        None => { return None; },
    };
    let items = match data.as_array() {
        Some(items) => items,
        None => { return None; },
    };
    let ghost values = items_view(items@);
    let mut list: Vec<K> = Vec::new();
    let mut i: usize = 0;
    while i < items.len()
        invariant
            i <= items.len(),
            list.len() == i,
            values == items_view(items@),
            listed_services(json@, kind@) == services_in(values),
            forall|k: int| 0 <= k < i ==> service_of(#[trigger] values[k]) == Some(list[k].record()),
        decreases items.len() - i,
    {
        match Service::decode(&items[i]) {
            Ok(service) => {
                assert(values[i as int] == items[i as int]@);
                list.push(K::from_service(service));
            },
            Err(_) => {
                assert(values[i as int] == items[i as int]@);
                return None;
            },
        }
        i += 1;
    }
    assert(services_in(values)->0 =~= records(list@));
    Some(list)
}

impl Services {
    /// Reads the services of an account from their JSON form.
    pub fn decode(json: &Json) -> (r: Result<Services, ApiError>)
        ensures
            match r {
                Ok(services) => services_of(json@) == Some(services@),
                Err(e) => e == ApiError::Decode && services_of(json@) is None,
            },
    {
        let broadband = match decode_list::<BroadbandService>(json, "broadband") {
            Some(list) => list,
            None => { return Err(ApiError::Decode); },
        };
        let mobile = match decode_list::<MobileService>(json, "mobile") {
            Some(list) => list,
            None => { return Err(ApiError::Decode); },
        };
        let phone = match decode_list::<PhoneService>(json, "phone") {
            Some(list) => list,
            None => { return Err(ApiError::Decode); },
        };
        let voip = match decode_list::<VoipService>(json, "voip") {
            Some(list) => list,
            None => { return Err(ApiError::Decode); },
        };
        Ok(Services { broadband, mobile, phone, voip })
    }
}

/// The query for the services of the account.
pub struct GetServices;

impl Query for GetServices {
    type Response = Data<Services>;

    open spec fn path_spec(&self) -> Seq<char> {
        "/service"@
    }

    open spec fn body_spec(&self) -> Option<JsonValue> {
        None
    }

    open spec fn understands(&self, answer: JsonValue) -> bool {
        services_of(answer) is Some
    }

    open spec fn reads(&self, answer: JsonValue, response: &Data<Services>) -> bool {
        services_of(answer) == Some(response.content()@)
    }

    fn path(&self) -> (path: String) {
        "/service".to_owned()
    }

    fn body(&self) -> (body: Option<Json>) {
        None
    }

    fn decode(&self, answer: &Json) -> (r: Result<Data<Services>, ApiError>) {
        match Services::decode(answer) {
            Ok(services) => Ok(Data::new(services)),
            Err(e) => Err(e),
        }
    }
}

} // verus!
