//! The requests made of the Cloudflare DNS API, and what a listing of records
//! asks for.
use vstd::prelude::*;

verus! {

/// The address of the zone lookup for `zone_name`.
pub open spec fn spec_zone_lookup_url(zone_name: Seq<char>) -> Seq<char> {
    "https://api.cloudflare.com/client/v4/zones?name="@ + zone_name
}

/// The address that lists the records named `record_name` of type `record_type`.
pub open spec fn spec_records_url(zone_id: Seq<char>, record_name: Seq<char>, record_type: Seq<char>) -> Seq<char> {
    "https://api.cloudflare.com/client/v4/zones/"@ + zone_id + "/dns_records?name="@ + record_name
        + "&type="@ + record_type
}

/// The address to which a new record is posted.
pub open spec fn spec_create_url(zone_id: Seq<char>) -> Seq<char> {
    "https://api.cloudflare.com/client/v4/zones/"@ + zone_id + "/dns_records"@
}

/// The address of an existing record.
pub open spec fn spec_update_url(zone_id: Seq<char>, record_id: Seq<char>) -> Seq<char> {
    "https://api.cloudflare.com/client/v4/zones/"@ + zone_id + "/dns_records/"@ + record_id
}

/// The value of the `Authorization` header for an API token.
pub open spec fn spec_authorization(api_token: Seq<char>) -> Seq<char> {
    "Bearer "@ + api_token
}

/// The address of the zone lookup for `zone_name`.
pub fn zone_lookup_url(zone_name: &str) -> (r: String)
    ensures
        r@ == spec_zone_lookup_url(zone_name@),
{
    let mut url = "https://api.cloudflare.com/client/v4/zones?name=".to_owned();
    url.append(zone_name);
    url
}

/// The address that lists the records named `record_name` of type `record_type`.
pub fn records_url(zone_id: &str, record_name: &str, record_type: &str) -> (r: String)
    ensures
        r@ == spec_records_url(zone_id@, record_name@, record_type@),
{
    let mut url = "https://api.cloudflare.com/client/v4/zones/".to_owned();
    url.append(zone_id);
    url.append("/dns_records?name=");
    url.append(record_name);
    url.append("&type=");
    url.append(record_type);
    url
}

/// The address to which a new record is posted.
pub fn create_url(zone_id: &str) -> (r: String)
    ensures
        r@ == spec_create_url(zone_id@),
{
    let mut url = "https://api.cloudflare.com/client/v4/zones/".to_owned();
    url.append(zone_id);
    url.append("/dns_records");
    url
}

/// The address of an existing record.
pub fn update_url(zone_id: &str, record_id: &str) -> (r: String)
    ensures
        r@ == spec_update_url(zone_id@, record_id@),
{
    let mut url = "https://api.cloudflare.com/client/v4/zones/".to_owned();
    url.append(zone_id);
    url.append("/dns_records/");
    url.append(record_id);
    url
}

/// The value of the `Authorization` header for an API token.
pub fn authorization(api_token: &str) -> (r: String)
    ensures
        r@ == spec_authorization(api_token@),
{
    let mut value = "Bearer ".to_owned();
    value.append(api_token);
    value
}

/// The record that a create or update request sends.
pub struct RecordBody {
    pub record_type: String,
    pub name: String,
    pub content: String,
    pub ttl: u64,
    pub proxied: bool,
}

/// A record body by its views.
pub struct RecordBodyView {
    pub record_type: Seq<char>,
    pub name: Seq<char>,
    pub content: Seq<char>,
    pub ttl: u64,
    pub proxied: bool,
}

impl View for RecordBody {
    type V = RecordBodyView;

    open spec fn view(&self) -> RecordBodyView {
        RecordBodyView {
            record_type: self.record_type@,
            name: self.name@,
            content: self.content@,
            ttl: self.ttl,
            proxied: self.proxied,
        }
    }
}

/// The body sent for a record: an automatic time to live (1) and proxied.
pub open spec fn spec_record_body(record_type: Seq<char>, name: Seq<char>, content: Seq<char>) -> RecordBodyView {
    RecordBodyView { record_type, name, content, ttl: 1, proxied: true }
}

/// The body sent for a record of type `record_type` named `name` pointing at `content`.
pub fn record_body(record_type: &str, name: &str, content: &str) -> (b: RecordBody)
    ensures
        b@ == spec_record_body(record_type@, name@, content@),
{
    RecordBody {
        record_type: record_type.to_owned(),
        name: name.to_owned(),
        content: content.to_owned(),
        ttl: 1,
        proxied: true,
    }
}

/// What the logic reads of a listed record: its id and its content, each when
/// it is a string.
pub struct DnsRecord {
    pub id: Option<String>,
    pub content: Option<String>,
}

/// A listed record by its views.
pub struct DnsRecordView {
    pub id: Option<Seq<char>>,
    pub content: Option<Seq<char>>,
}

/// The view of an optional string.
pub open spec fn opt_text(o: Option<String>) -> Option<Seq<char>> {
    match o {
        Some(s) => Some(s@),
        None => None,
    }
}

impl View for DnsRecord {
    type V = DnsRecordView;

    open spec fn view(&self) -> DnsRecordView {
        DnsRecordView { id: opt_text(self.id), content: opt_text(self.content) }
    }
}

/// The views of a listing of records.
pub open spec fn record_views(records: Seq<DnsRecord>) -> Seq<DnsRecordView> {
    records.map_values(|r: DnsRecord| r@)
}

/// What a listing of the records of a name asks for.
pub enum RecordPlan {
    /// The first record already points at the address.
    Keep,
    /// There is no record: create one.
    Create,
    /// Update the first record, which has this id.
    Update(String),
}

/// A plan by its views.
pub enum RecordPlanView {
    Keep,
    Create,
    Update(Seq<char>),
}

impl View for RecordPlan {
    type V = RecordPlanView;

    open spec fn view(&self) -> RecordPlanView {
        match self {
            RecordPlan::Keep => RecordPlanView::Keep,
            RecordPlan::Create => RecordPlanView::Create,
            RecordPlan::Update(id) => RecordPlanView::Update(id@),
        }
    }
}

/// Whether the first listed record already points at `address`.
pub open spec fn first_is_current(records: Seq<DnsRecordView>, address: Seq<char>) -> bool {
    records.len() > 0 && records[0].content == Some(address)
}

/// Whether acting on the listing needs the id of the first record: it must be
/// updated.
pub open spec fn needs_record_id(records: Seq<DnsRecordView>, address: Seq<char>) -> bool {
    records.len() > 0 && !first_is_current(records, address)
}

/// What to do with a listing: keep a first record that points at `address`,
/// create one when there is none, else update the first.
pub open spec fn spec_record_plan(records: Seq<DnsRecordView>, address: Seq<char>) -> RecordPlanView
    recommends
        needs_record_id(records, address) ==> records[0].id is Some,
{
    if first_is_current(records, address) {
        RecordPlanView::Keep
    } else if records.len() == 0 {
        RecordPlanView::Create
    } else {
        RecordPlanView::Update(records[0].id->0)
    }
}

/// Whether a listing can be acted on: a first record that must be updated has an id.
pub open spec fn listing_usable(records: Seq<DnsRecordView>, address: Seq<char>) -> bool {
    needs_record_id(records, address) ==> records[0].id is Some
}

/// Whether the first listed record points at `address`.
pub fn first_record_is_current(records: &Vec<DnsRecord>, address: &str) -> (r: bool)
    ensures
        r == first_is_current(record_views(records@), address@),
{
    if records.len() == 0 {
        return false;
    }
    assert(record_views(records@)[0] == records@[0]@);
    match &records[0].content {
        Some(c) => {
            let wanted = address.to_owned();
            *c == wanted
        },
        None => false,
    }
}

/// Whether a listing can be acted on: a first record that must be updated has an id.
pub fn record_listing_usable(records: &Vec<DnsRecord>, address: &str) -> (r: bool)
    ensures
        r == listing_usable(record_views(records@), address@),
{
    if records.len() == 0 || first_record_is_current(records, address) {
        return true;
    }
    assert(record_views(records@)[0] == records@[0]@);
    records[0].id.is_some()
}

/// Decides what a listing of records asks for.
pub fn record_plan(records: &Vec<DnsRecord>, address: &str) -> (p: RecordPlan)
    requires
        listing_usable(record_views(records@), address@),
    ensures
        p@ == spec_record_plan(record_views(records@), address@),
{
    if first_record_is_current(records, address) {
        RecordPlan::Keep
    } else if records.len() == 0 {
        RecordPlan::Create
    } else {
        assert(record_views(records@)[0] == records@[0]@);
        match &records[0].id {
            Some(id) => RecordPlan::Update(id.clone()),
            None => RecordPlan::Create,
        }
    }
}

/// A record that already points at the address is left alone: no write is asked for.
pub proof fn lemma_current_record_kept(records: Seq<DnsRecordView>, address: Seq<char>)
    requires
        first_is_current(records, address),
    ensures
        spec_record_plan(records, address) == RecordPlanView::Keep,
{
}

/// An existing record that does not point at the address is updated in place,
/// never duplicated: the plan is to update the first record.
pub proof fn lemma_stale_record_updated(records: Seq<DnsRecordView>, address: Seq<char>)
    requires
        records.len() > 0,
        !first_is_current(records, address),
        records[0].id is Some,
    ensures
        spec_record_plan(records, address) == RecordPlanView::Update(records[0].id->0),
{
}

/// What is wrong with a zone listing, when the first zone's id cannot be had.
#[derive(PartialEq, Eq, Structural, Debug, Clone, Copy)]
pub enum ZoneListingProblem {
    /// No zone is listed.
    NoZones,
    /// The first zone's id is not a string.
    IdNotText,
}

/// The views of the ids of listed zones, each when it is a string.
pub open spec fn zone_id_views(ids: Seq<Option<String>>) -> Seq<Option<Seq<char>>> {
    ids.map_values(|o: Option<String>| opt_text(o))
}

/// What keeps the first zone's id from being had, if anything.
pub open spec fn spec_zone_listing_problem(ids: Seq<Option<Seq<char>>>) -> Option<ZoneListingProblem> {
    if ids.len() == 0 {
        Some(ZoneListingProblem::NoZones)
    } else if ids[0] is None {
        Some(ZoneListingProblem::IdNotText)
    } else {
        None
    }
}

/// What keeps the first zone's id from being had, if anything; `first_zone_id`
/// requires that nothing does.
pub fn zone_listing_problem(ids: &Vec<Option<String>>) -> (r: Option<ZoneListingProblem>)
    ensures
        r == spec_zone_listing_problem(zone_id_views(ids@)),
{
    if ids.len() == 0 {
        return Some(ZoneListingProblem::NoZones);
    }
    assert(zone_id_views(ids@)[0] == opt_text(ids@[0]));
    if ids[0].is_none() {
        Some(ZoneListingProblem::IdNotText)
    } else {
        None
    }
}

/// The id of the first listed zone: the zone that a name is looked up in.
pub fn first_zone_id(ids: &Vec<Option<String>>) -> (r: String)
    requires
        spec_zone_listing_problem(zone_id_views(ids@)) is None,
    ensures
        Some(r@) == zone_id_views(ids@)[0],
{
    assert(zone_id_views(ids@)[0] == opt_text(ids@[0]));
    match &ids[0] {
        Some(id) => id.clone(),
        None => String::new(),
    }
}

/// A listing is acted on by what its first record holds: with no record one is
/// created; a first record whose content is exactly the address is kept; any
/// other first record, whatever its content, is updated by its id.
pub proof fn lemma_record_plan_by_content(records: Seq<DnsRecordView>, address: Seq<char>)
    requires
        records.len() > 0 && records[0].content != Some(address) ==> records[0].id is Some,
    ensures
        records.len() == 0 ==> spec_record_plan(records, address) == RecordPlanView::Create,
        records.len() > 0 && records[0].content == Some(address) ==> spec_record_plan(
            records,
            address,
        ) == RecordPlanView::Keep,
        records.len() > 0 && records[0].content != Some(address) ==> spec_record_plan(
            records,
            address,
        ) == RecordPlanView::Update(records[0].id->0),
        listing_usable(records, address),
{
}

/// Two addresses that differ never both count as current for the same record.
pub proof fn lemma_current_is_exact(records: Seq<DnsRecordView>, a: Seq<char>, b: Seq<char>)
    requires
        first_is_current(records, a),
        first_is_current(records, b),
    ensures
        a == b,
        records[0].content == Some(a),
{
}

/// A zone listing gives the first zone's id exactly when some zone is listed
/// and the first one's id is text; it is refused as empty exactly when no
/// zone is listed.
pub proof fn lemma_zone_listing_usable(ids: Seq<Option<Seq<char>>>)
    ensures
        spec_zone_listing_problem(ids) is None <==> (ids.len() > 0 && ids[0] is Some),
        spec_zone_listing_problem(ids) == Some(ZoneListingProblem::NoZones) <==> ids.len() == 0,
        spec_zone_listing_problem(ids) == Some(ZoneListingProblem::IdNotText) <==> (ids.len() > 0
            && ids[0] is None),
{
}

/// The views of listed zone ids are the ids themselves, position by position.
pub proof fn lemma_zone_id_views(ids: Seq<Option<String>>)
    ensures
        zone_id_views(ids).len() == ids.len(),
        forall|k: int|
            0 <= k < ids.len() ==> (#[trigger] zone_id_views(ids)[k] is Some <==> ids[k] is Some),
        forall|k: int|
            0 <= k < ids.len() && ids[k] is Some ==> #[trigger] zone_id_views(ids)[k] == Some(
                ids[k]->0@,
            ),
{
}

/// The `Authorization` header carries the token after `Bearer `, and a zone is
/// looked up by its name.
pub proof fn lemma_request_texts(api_token: Seq<char>, zone_name: Seq<char>)
    ensures
        spec_authorization(api_token) == "Bearer "@ + api_token,
        spec_zone_lookup_url(zone_name) == "https://api.cloudflare.com/client/v4/zones?name="@
            + zone_name,
{
}

} // verus!
