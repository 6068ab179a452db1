//! One round of checking the external addresses and updating the DNS records.
//!
//! The round is a state machine: each step takes what the last request gave and
//! says what to do next. The caller performs the requests. Hosts and zones are
//! paired by position; for each pair, in order, the zone's id is looked up, the
//! `A` records named `host.zone` are listed, and the record is created, updated
//! or left alone. A failed address or zone lookup ends the round with its error;
//! a failed record update is reported and the round goes on with the next pair.
use vstd::prelude::*;

use crate::cloudflare::{
    create_url, record_body, record_plan, records_url, spec_create_url, spec_record_body,
    spec_record_plan, spec_records_url, spec_update_url, spec_zone_lookup_url, update_url,
    zone_lookup_url, listing_usable, record_listing_usable, record_views, DnsRecord, DnsRecordView,
    RecordBody, RecordBodyView, RecordPlan, RecordPlanView,
};
use crate::text::string_views;

verus! {

/// Where a round stands; the index is that of the host and zone pair at hand.
#[derive(PartialEq, Eq, Structural, Debug, Clone, Copy)]
pub enum Stage {
    NotStarted,
    AwaitingIpv4,
    AwaitingIpv6,
    AwaitingZone(usize),
    AwaitingRecords(usize),
    AwaitingCreate(usize),
    AwaitingUpdate(usize),
    Reporting(usize),
    Finished,
}

/// How the record of one pair fared.
pub enum PairOutcome {
    /// The record already pointed at the address.
    Unchanged,
    Created,
    Updated,
    /// Listing or writing the record failed with this error.
    Failed(String),
}

pub enum PairOutcomeView {
    Unchanged,
    Created,
    Updated,
    Failed(Seq<char>),
}

impl View for PairOutcome {
    type V = PairOutcomeView;

    open spec fn view(&self) -> PairOutcomeView {
        match self {
            PairOutcome::Unchanged => PairOutcomeView::Unchanged,
            PairOutcome::Created => PairOutcomeView::Created,
            PairOutcome::Updated => PairOutcomeView::Updated,
            PairOutcome::Failed(e) => PairOutcomeView::Failed(e@),
        }
    }
}

/// What the last request gave.
pub enum Event {
    /// Begin the round.
    Start,
    /// The external address, or why it could not be had.
    AddressFetched(Result<String, String>),
    /// The id of the zone at hand, or why it could not be had.
    ZoneFound(Result<String, String>),
    /// The records of the name at hand, or why they could not be listed.
    RecordsListed(Result<Vec<DnsRecord>, String>),
    /// Whether the create or update request succeeded.
    RecordWritten(Result<(), String>),
    /// The outcome of the pair has been reported.
    Reported,
}

pub enum EventView {
    Start,
    AddressFetched(Result<Seq<char>, Seq<char>>),
    ZoneFound(Result<Seq<char>, Seq<char>>),
    RecordsListed(Result<Seq<DnsRecordView>, Seq<char>>),
    RecordWritten(Result<(), Seq<char>>),
    Reported,
}

/// The view of a result whose both sides are text.
pub open spec fn text_result(r: Result<String, String>) -> Result<Seq<char>, Seq<char>> {
    match r {
        Ok(s) => Ok(s@),
        Err(e) => Err(e@),
    }
}

impl View for Event {
    type V = EventView;

    open spec fn view(&self) -> EventView {
        match self {
            Event::Start => EventView::Start,
            Event::AddressFetched(r) => EventView::AddressFetched(text_result(*r)),
            Event::ZoneFound(r) => EventView::ZoneFound(text_result(*r)),
            Event::RecordsListed(r) => EventView::RecordsListed(
                match r {
                    Ok(v) => Ok(record_views(v@)),
                    Err(e) => Err(e@),
                },
            ),
            Event::RecordWritten(r) => EventView::RecordWritten(
                match r {
                    Ok(u) => Ok(*u),
                    Err(e) => Err(e@),
                },
            ),
            Event::Reported => EventView::Reported,
        }
    }
}

/// What to do next.
pub enum Action {
    /// Fetch the external IPv4 address.
    FetchIpv4,
    /// Fetch the external IPv6 address.
    FetchIpv6,
    /// Look up the id of `zone` at `url`.
    LookupZone { zone: String, url: String },
    /// List the records at `url`.
    ListRecords { url: String },
    /// Post `body` to `url`.
    CreateRecord { url: String, body: RecordBody },
    /// Send `body` to the existing record at `url`.
    UpdateRecord { url: String, body: RecordBody },
    /// Report how the record of `host` in `zone` fared.
    Report { host: String, zone: String, outcome: PairOutcome },
    /// The round is over.
    Finish(Result<(), String>),
}

pub enum ActionView {
    FetchIpv4,
    FetchIpv6,
    LookupZone { zone: Seq<char>, url: Seq<char> },
    ListRecords { url: Seq<char> },
    CreateRecord { url: Seq<char>, body: RecordBodyView },
    UpdateRecord { url: Seq<char>, body: RecordBodyView },
    Report { host: Seq<char>, zone: Seq<char>, outcome: PairOutcomeView },
    Finish(Result<(), Seq<char>>),
}

impl View for Action {
    type V = ActionView;

    open spec fn view(&self) -> ActionView {
        match self {
            Action::FetchIpv4 => ActionView::FetchIpv4,
            Action::FetchIpv6 => ActionView::FetchIpv6,
            Action::LookupZone { zone, url } => ActionView::LookupZone { zone: zone@, url: url@ },
            Action::ListRecords { url } => ActionView::ListRecords { url: url@ },
            Action::CreateRecord { url, body } => ActionView::CreateRecord { url: url@, body: body@ },
            Action::UpdateRecord { url, body } => ActionView::UpdateRecord { url: url@, body: body@ },
            Action::Report { host, zone, outcome } => ActionView::Report {
                host: host@,
                zone: zone@,
                outcome: outcome@,
            },
            Action::Finish(r) => ActionView::Finish(
                match r {
                    Ok(u) => Ok(*u),
                    Err(e) => Err(e@),
                },
            ),
        }
    }
}

/// A round of updates.
pub struct Cycle {
    hosts: Vec<String>,
    zones: Vec<String>,
    ipv4: bool,
    ipv6: bool,
    address_v4: String,
    address_v6: String,
    zone_id: String,
    stage: Stage,
}

/// A round by its views.
pub struct CycleView {
    pub hosts: Seq<Seq<char>>,
    pub zones: Seq<Seq<char>>,
    pub ipv4: bool,
    pub ipv6: bool,
    pub address_v4: Seq<char>,
    pub address_v6: Seq<char>,
    pub zone_id: Seq<char>,
    pub stage: Stage,
}

impl View for Cycle {
    type V = CycleView;

    closed spec fn view(&self) -> CycleView {
        CycleView {
            hosts: string_views(self.hosts@),
            zones: string_views(self.zones@),
            ipv4: self.ipv4,
            ipv6: self.ipv6,
            address_v4: self.address_v4@,
            address_v6: self.address_v6@,
            zone_id: self.zone_id@,
            stage: self.stage,
        }
    }
}

/// The number of host and zone pairs: the pairs stop with the shorter list.
pub open spec fn pair_count(c: CycleView) -> int {
    if c.hosts.len() <= c.zones.len() {
        c.hosts.len() as int
    } else {
        c.zones.len() as int
    }
}

/// The name of the record of pair `i`: `host.zone`.
pub open spec fn record_name(c: CycleView, i: int) -> Seq<char> {
    c.hosts[i] + "."@ + c.zones[i]
}

/// The record type that is kept up to date.
pub open spec fn record_type() -> Seq<char> {
    "A"@
}

/// What stands for the IPv6 address when it is not looked up.
pub open spec fn ipv6_unused() -> Seq<char> {
    "IPv6 is unused"@
}

/// The error of a round that is not to update `A` records.
pub open spec fn ipv4_unused() -> Seq<char> {
    "IPv4 is unused"@
}

/// The index of the pair at hand, when there is one.
pub open spec fn stage_index(s: Stage) -> Option<int> {
    match s {
        Stage::AwaitingZone(i) => Some(i as int),
        Stage::AwaitingRecords(i) => Some(i as int),
        Stage::AwaitingCreate(i) => Some(i as int),
        Stage::AwaitingUpdate(i) => Some(i as int),
        Stage::Reporting(i) => Some(i as int),
        _ => None,
    }
}

/// A round is well formed when the pair at hand exists.
pub open spec fn well_formed(c: CycleView) -> bool {
    &&& pair_count(c) <= usize::MAX
    &&& match stage_index(c.stage) {
        Some(i) => 0 <= i < pair_count(c),
        None => true,
    }
}

/// Whether the round expects this event now; a listing whose first record must
/// be updated has to give its id.
pub open spec fn accepts(c: CycleView, e: EventView) -> bool {
    match (c.stage, e) {
        (Stage::NotStarted, EventView::Start) => true,
        (Stage::AwaitingIpv4, EventView::AddressFetched(_)) => true,
        (Stage::AwaitingIpv6, EventView::AddressFetched(_)) => true,
        (Stage::AwaitingZone(_), EventView::ZoneFound(_)) => true,
        (Stage::AwaitingRecords(_), EventView::RecordsListed(r)) => match r {
            Ok(records) => listing_usable(records, c.address_v4),
            Err(_) => true,
        },
        (Stage::AwaitingCreate(_), EventView::RecordWritten(_)) => true,
        (Stage::AwaitingUpdate(_), EventView::RecordWritten(_)) => true,
        (Stage::Reporting(_), EventView::Reported) => true,
        _ => false,
    }
}

/// The round ends with `r`.
pub open spec fn finish(c: CycleView, r: Result<(), Seq<char>>) -> (CycleView, ActionView) {
    (CycleView { stage: Stage::Finished, ..c }, ActionView::Finish(r))
}

/// Takes up pair `i`, or ends the round well when there is none left.
pub open spec fn begin_pair(c: CycleView, i: int) -> (CycleView, ActionView) {
    if 0 <= i < pair_count(c) {
        (
            CycleView { stage: Stage::AwaitingZone(i as usize), ..c },
            ActionView::LookupZone { zone: c.zones[i], url: spec_zone_lookup_url(c.zones[i]) },
        )
    } else {
        finish(c, Ok(()))
    }
}

/// Reports how the record of pair `i` fared.
pub open spec fn report(c: CycleView, i: int, outcome: PairOutcomeView) -> (CycleView, ActionView) {
    (
        CycleView { stage: Stage::Reporting(i as usize), ..c },
        ActionView::Report { host: c.hosts[i], zone: c.zones[i], outcome },
    )
}

/// The body written for pair `i`.
pub open spec fn pair_body(c: CycleView, i: int) -> RecordBodyView {
    spec_record_body(record_type(), record_name(c, i), c.address_v4)
}

/// One step of a round.
pub open spec fn spec_step(c: CycleView, e: EventView) -> (CycleView, ActionView) {
    match (c.stage, e) {
        (Stage::NotStarted, EventView::Start) => if c.ipv4 {
            (CycleView { stage: Stage::AwaitingIpv4, ..c }, ActionView::FetchIpv4)
        } else {
            finish(c, Err(ipv4_unused()))
        },
        (Stage::AwaitingIpv4, EventView::AddressFetched(r)) => match r {
            Ok(a) => if c.ipv6 {
                (
                    CycleView { address_v4: a, stage: Stage::AwaitingIpv6, ..c },
                    ActionView::FetchIpv6,
                )
            } else {
                begin_pair(CycleView { address_v4: a, address_v6: ipv6_unused(), ..c }, 0)
            },
            Err(err) => finish(c, Err(err)),
        },
        (Stage::AwaitingIpv6, EventView::AddressFetched(r)) => match r {
            Ok(a) => begin_pair(CycleView { address_v6: a, ..c }, 0),
            Err(err) => finish(c, Err(err)),
        },
        (Stage::AwaitingZone(i), EventView::ZoneFound(r)) => match r {
            Ok(id) => (
                CycleView { zone_id: id, stage: Stage::AwaitingRecords(i), ..c },
                ActionView::ListRecords {
                    url: spec_records_url(id, record_name(c, i as int), record_type()),
                },
            ),
            Err(err) => finish(c, Err(err)),
        },
        (Stage::AwaitingRecords(i), EventView::RecordsListed(r)) => match r {
            Ok(records) => match spec_record_plan(records, c.address_v4) {
                RecordPlanView::Keep => report(c, i as int, PairOutcomeView::Unchanged),
                RecordPlanView::Create => (
                    CycleView { stage: Stage::AwaitingCreate(i), ..c },
                    ActionView::CreateRecord {
                        url: spec_create_url(c.zone_id),
                        body: pair_body(c, i as int),
                    },
                ),
                RecordPlanView::Update(id) => (
                    CycleView { stage: Stage::AwaitingUpdate(i), ..c },
                    ActionView::UpdateRecord {
                        url: spec_update_url(c.zone_id, id),
                        body: pair_body(c, i as int),
                    },
                ),
            },
            Err(err) => report(c, i as int, PairOutcomeView::Failed(err)),
        },
        (Stage::AwaitingCreate(i), EventView::RecordWritten(r)) => match r {
            Ok(_) => report(c, i as int, PairOutcomeView::Created),
            Err(err) => report(c, i as int, PairOutcomeView::Failed(err)),
        },
        (Stage::AwaitingUpdate(i), EventView::RecordWritten(r)) => match r {
            Ok(_) => report(c, i as int, PairOutcomeView::Updated),
            Err(err) => report(c, i as int, PairOutcomeView::Failed(err)),
        },
        (Stage::Reporting(i), EventView::Reported) => begin_pair(c, i + 1),
        _ => finish(c, Err(Seq::<char>::empty())),
    }
}

/// An upper bound on the steps left in a round.
pub open spec fn steps_left(c: CycleView) -> int {
    let n = pair_count(c);
    match c.stage {
        Stage::NotStarted => 4 * n + 3,
        Stage::AwaitingIpv4 => 4 * n + 2,
        Stage::AwaitingIpv6 => 4 * n + 1,
        Stage::AwaitingZone(i) => 4 * (n - i),
        Stage::AwaitingRecords(i) => 4 * (n - i) - 1,
        Stage::AwaitingCreate(i) => 4 * (n - i) - 2,
        Stage::AwaitingUpdate(i) => 4 * (n - i) - 2,
        Stage::Reporting(i) => 4 * (n - i) - 3,
        Stage::Finished => 0,
    }
}

impl Cycle {
    /// A round over the given hosts and zones, not started yet.
    pub fn new(hosts: Vec<String>, zones: Vec<String>, ipv4: bool, ipv6: bool) -> (c: Cycle)
        ensures
            c@ == (CycleView {
                hosts: string_views(hosts@),
                zones: string_views(zones@),
                ipv4,
                ipv6,
                address_v4: Seq::<char>::empty(),
                address_v6: Seq::<char>::empty(),
                zone_id: Seq::<char>::empty(),
                stage: Stage::NotStarted,
            }),
            well_formed(c@),
    {
        assert(string_views(hosts@).len() == hosts.len());
        Cycle {
            hosts,
            zones,
            ipv4,
            ipv6,
            address_v4: String::new(),
            address_v6: String::new(),
            zone_id: String::new(),
            stage: Stage::NotStarted,
        }
    }

    /// Where the round stands.
    pub fn stage(&self) -> (s: Stage)
        ensures
            s == self@.stage,
    {
        self.stage
    }

    /// The external IPv4 address, once fetched.
    pub fn address_v4(&self) -> (a: &str)
        ensures
            a@ == self@.address_v4,
    {
        self.address_v4.as_str()
    }

    /// The external IPv6 address once fetched, or the text that stands for it.
    pub fn address_v6(&self) -> (a: &str)
        ensures
            a@ == self@.address_v6,
    {
        self.address_v6.as_str()
    }

    /// Whether the round expects `e` now.
    pub fn accepts(&self, e: &Event) -> (r: bool)
        ensures
            r == accepts(self@, e@),
    {
        match (&self.stage, e) {
            (Stage::NotStarted, Event::Start) => true,
            (Stage::AwaitingIpv4, Event::AddressFetched(_)) => true,
            (Stage::AwaitingIpv6, Event::AddressFetched(_)) => true,
            (Stage::AwaitingZone(_), Event::ZoneFound(_)) => true,
            (Stage::AwaitingRecords(_), Event::RecordsListed(r)) => match r {
                Ok(records) => record_listing_usable(records, self.address_v4.as_str()),
                Err(_) => true,
            },
            (Stage::AwaitingCreate(_), Event::RecordWritten(_)) => true,
            (Stage::AwaitingUpdate(_), Event::RecordWritten(_)) => true,
            (Stage::Reporting(_), Event::Reported) => true,
            _ => false,
        }
    }

    fn pair_record_name(&self, i: usize) -> (r: String)
        requires
            well_formed(self@),
            i < pair_count(self@),
        ensures
            r@ == record_name(self@, i as int),
    {
        assert(string_views(self.hosts@)[i as int] == self.hosts@[i as int]@);
        assert(string_views(self.zones@)[i as int] == self.zones@[i as int]@);
        let mut name = self.hosts[i].clone();
        name.append(".");
        name.append(self.zones[i].as_str());
        name
    }

    fn begin_pair(&mut self, i: usize) -> (a: Action)
        requires
            i <= pair_count(old(self)@),
        ensures
            (final(self)@, a@) == begin_pair(old(self)@, i as int),
    {
        if i < self.hosts.len() && i < self.zones.len() {
            assert(string_views(self.zones@)[i as int] == self.zones@[i as int]@);
            let zone = self.zones[i].clone();
            let url = zone_lookup_url(zone.as_str());
            self.stage = Stage::AwaitingZone(i);
            Action::LookupZone { zone, url }
        } else {
            self.stage = Stage::Finished;
            Action::Finish(Ok(()))
        }
    }

    fn report(&mut self, i: usize, outcome: PairOutcome) -> (a: Action)
        requires
            i < pair_count(old(self)@),
        ensures
            (final(self)@, a@) == report(old(self)@, i as int, outcome@),
    {
        assert(string_views(self.hosts@)[i as int] == self.hosts@[i as int]@);
        assert(string_views(self.zones@)[i as int] == self.zones@[i as int]@);
        self.stage = Stage::Reporting(i);
        Action::Report { host: self.hosts[i].clone(), zone: self.zones[i].clone(), outcome }
    }

    fn finish(&mut self, r: Result<(), String>) -> (a: Action)
        ensures
            (final(self)@, a@) == finish(
                old(self)@,
                match r {
                    Ok(u) => Ok(u),
                    Err(e) => Err(e@),
                },
            ),
    {
        self.stage = Stage::Finished;
        Action::Finish(r)
    }

    /// Takes what the last request gave and says what to do next.
    pub fn step(&mut self, e: Event) -> (a: Action)
        requires
            well_formed(old(self)@),
            accepts(old(self)@, e@),
        ensures
            (final(self)@, a@) == spec_step(old(self)@, e@),
            well_formed(final(self)@),
    {
        let ghost c = self@;
        let ghost ev = e@;
        match e {
            Event::Start => {
                if self.ipv4 {
                    self.stage = Stage::AwaitingIpv4;
                    Action::FetchIpv4
                } else {
                    self.finish(Err("IPv4 is unused".to_owned()))
                }
            },
            Event::AddressFetched(r) => {
                match r {
                    Ok(a) => {
                        if self.stage == Stage::AwaitingIpv4 {
                            self.address_v4 = a;
                            if self.ipv6 {
                                self.stage = Stage::AwaitingIpv6;
                                Action::FetchIpv6
                            } else {
                                self.address_v6 = "IPv6 is unused".to_owned();
                                self.begin_pair(0)
                            }
                        } else {
                            self.address_v6 = a;
                            self.begin_pair(0)
                        }
                    },
                    Err(err) => self.finish(Err(err)),
                }
            },
            Event::ZoneFound(r) => {
                let i = match self.stage {
                    Stage::AwaitingZone(i) => i,
                    _ => 0,
                };
                match r {
                    Ok(id) => {
                        let name = self.pair_record_name(i);
                        let url = records_url(id.as_str(), name.as_str(), "A");
                        self.zone_id = id;
                        self.stage = Stage::AwaitingRecords(i);
                        Action::ListRecords { url }
                    },
                    Err(err) => self.finish(Err(err)),
                }
            },
            Event::RecordsListed(r) => {
                let i = match self.stage {
                    Stage::AwaitingRecords(i) => i,
                    _ => 0,
                };
                match r {
                    Ok(records) => {
                        let plan = record_plan(&records, self.address_v4.as_str());
                        match plan {
                            RecordPlan::Keep => self.report(i, PairOutcome::Unchanged),
                            RecordPlan::Create => {
                                let name = self.pair_record_name(i);
                                let body = record_body("A", name.as_str(), self.address_v4.as_str());
                                let url = create_url(self.zone_id.as_str());
                                self.stage = Stage::AwaitingCreate(i);
                                Action::CreateRecord { url, body }
                            },
                            RecordPlan::Update(id) => {
                                let name = self.pair_record_name(i);
                                let body = record_body("A", name.as_str(), self.address_v4.as_str());
                                let url = update_url(self.zone_id.as_str(), id.as_str());
                                self.stage = Stage::AwaitingUpdate(i);
                                Action::UpdateRecord { url, body }
                            },
                        }
                    },
                    Err(err) => self.report(i, PairOutcome::Failed(err)),
                }
            },
            Event::RecordWritten(r) => {
                match self.stage {
                    Stage::AwaitingCreate(i) => match r {
                        Ok(_) => self.report(i, PairOutcome::Created),
                        Err(err) => self.report(i, PairOutcome::Failed(err)),
                    },
                    Stage::AwaitingUpdate(i) => match r {
                        Ok(_) => self.report(i, PairOutcome::Updated),
                        Err(err) => self.report(i, PairOutcome::Failed(err)),
                    },
                    _ => self.finish(Err(String::new())),
                }
            },
            Event::Reported => {
                let i = match self.stage {
                    Stage::Reporting(i) => i,
                    _ => 0,
                };
                assert(string_views(self.hosts@).len() == self.hosts@.len());
                assert(i < self.hosts.len());
                self.begin_pair(i + 1)
            },
        }
    }
}

/// A round that is not to keep `A` records up to date ends at once with the
/// error `IPv4 is unused`, before any request is made.
pub proof fn lemma_ipv4_required(c: CycleView)
    requires
        c.stage == Stage::NotStarted,
        !c.ipv4,
    ensures
        spec_step(c, EventView::Start) == finish(c, Err(ipv4_unused())),
{
}

/// Every accepted step of a round that is not over keeps it well formed and
/// brings it closer to its end: a round ends within `steps_left` steps.
pub proof fn lemma_step_progress(c: CycleView, e: EventView)
    requires
        well_formed(c),
        accepts(c, e),
    ensures
        c.stage != Stage::Finished,
        well_formed(spec_step(c, e).0),
        0 <= steps_left(spec_step(c, e).0) < steps_left(c),
{
    assert(pair_count(c) >= 0);
}

/// No round is over before it is started, and a finished round expects nothing.
pub proof fn lemma_finished_is_final(c: CycleView, e: EventView)
    requires
        c.stage == Stage::Finished,
    ensures
        !accepts(c, e),
        steps_left(c) == 0,
{
}

/// Hosts and zones go together by position: the records listed after the id of
/// zone `i` was found are those named `host_i.zone_i` of type `A` in that zone,
/// and any write that follows goes to that zone, for that name, with the
/// external IPv4 address, an automatic time to live and the proxy on.
pub proof fn lemma_pairs_go_together(
    c: CycleView,
    i: usize,
    id: Seq<char>,
    records: Seq<DnsRecordView>,
)
    requires
        well_formed(c),
        c.stage == Stage::AwaitingZone(i),
        listing_usable(records, c.address_v4),
    ensures
        ({
            let (c1, a1) = spec_step(c, EventView::ZoneFound(Ok(id)));
            let (c2, a2) = spec_step(c1, EventView::RecordsListed(Ok(records)));
            &&& c1.zone_id == id
            &&& c1.stage == Stage::AwaitingRecords(i)
            &&& a1 == ActionView::ListRecords {
                url: spec_records_url(id, c.hosts[i as int] + "."@ + c.zones[i as int], "A"@),
            }
            &&& accepts(c1, EventView::RecordsListed(Ok(records)))
            &&& a2 matches ActionView::CreateRecord { url, body } ==> {
                &&& url == spec_create_url(id)
                &&& body == spec_record_body(
                    "A"@,
                    c.hosts[i as int] + "."@ + c.zones[i as int],
                    c.address_v4,
                )
                &&& body.ttl == 1 && body.proxied
            }
            &&& a2 matches ActionView::UpdateRecord { url, body } ==> {
                &&& url == spec_update_url(id, records[0].id->0)
                &&& body == spec_record_body(
                    "A"@,
                    c.hosts[i as int] + "."@ + c.zones[i as int],
                    c.address_v4,
                )
                &&& body.ttl == 1 && body.proxied
            }
        }),
{
}

/// A record that already points at the external address is not written: the
/// pair is reported unchanged.
pub proof fn lemma_current_record_untouched(c: CycleView, i: usize, records: Seq<DnsRecordView>)
    requires
        well_formed(c),
        c.stage == Stage::AwaitingRecords(i),
        records.len() > 0,
        records[0].content == Some(c.address_v4),
    ensures
        spec_step(c, EventView::RecordsListed(Ok(records))) == report(
            c,
            i as int,
            PairOutcomeView::Unchanged,
        ),
{
}

/// A zone that cannot be looked up ends the round with that error.
pub proof fn lemma_zone_failure_ends_round(c: CycleView, i: usize, err: Seq<char>)
    requires
        c.stage == Stage::AwaitingZone(i),
    ensures
        spec_step(c, EventView::ZoneFound(Err(err))) == finish(c, Err(err)),
{
}

/// A record that cannot be listed or written is reported as failed, and the
/// round goes on with the next pair, or ends well after the last one.
pub proof fn lemma_record_failure_goes_on(c: CycleView, e: EventView, err: Seq<char>)
    requires
        well_formed(c),
        accepts(c, e),
        e == EventView::RecordsListed(Err(err)) || e == EventView::RecordWritten(Err(err)),
    ensures
        ({
            let i = stage_index(c.stage)->0;
            let (c1, a1) = spec_step(c, e);
            &&& a1 == ActionView::Report {
                host: c.hosts[i],
                zone: c.zones[i],
                outcome: PairOutcomeView::Failed(err),
            }
            &&& spec_step(c1, EventView::Reported) == begin_pair(c, i + 1)
            &&& (i + 1 == pair_count(c) ==> spec_step(c1, EventView::Reported).1
                == ActionView::Finish(Ok(())))
        }),
{
}

/// Every zone lookup that a step asks for is the lookup of the zone it names,
/// and that zone is the zone of the pair the round takes up next, by position.
pub proof fn lemma_zone_lookup_is_for_its_zone(c: CycleView, e: EventView)
    requires
        well_formed(c),
        accepts(c, e),
    ensures
        ({
            let (c2, a) = spec_step(c, e);
            a is LookupZone ==> {
                &&& a->LookupZone_url == "https://api.cloudflare.com/client/v4/zones?name="@
                    + a->LookupZone_zone
                &&& c2.stage is AwaitingZone
                &&& 0 <= stage_index(c2.stage)->0 < pair_count(c)
                &&& a->LookupZone_zone == c.zones[stage_index(c2.stage)->0]
            }
        }),
{
}

/// After the addresses are known the round takes up the first pair, looking up
/// the first zone, or ends well when there is no pair.
pub proof fn lemma_first_pair_first(c: CycleView, e: EventView)
    requires
        well_formed(c),
        accepts(c, e),
        (c.stage == Stage::AwaitingIpv4 && !c.ipv6) || c.stage == Stage::AwaitingIpv6,
        e is AddressFetched,
        e->AddressFetched_0 is Ok,
    ensures
        pair_count(c) > 0 ==> spec_step(c, e).0.stage == Stage::AwaitingZone(0) && spec_step(
            c,
            e,
        ).1 == (ActionView::LookupZone {
            zone: c.zones[0],
            url: "https://api.cloudflare.com/client/v4/zones?name="@ + c.zones[0],
        }),
        pair_count(c) == 0 ==> spec_step(c, e).0.stage == Stage::Finished && spec_step(c, e).1
            == ActionView::Finish(Ok(())),
{
}

/// Pairs are taken up in order: after pair `i` is reported the round looks up
/// the zone of pair `i + 1`, or ends well after the last pair.
pub proof fn lemma_next_pair_in_order(c: CycleView, i: usize)
    requires
        well_formed(c),
        c.stage == Stage::Reporting(i),
    ensures
        ({
            let (c2, a) = spec_step(c, EventView::Reported);
            if i + 1 < pair_count(c) {
                &&& c2.stage == Stage::AwaitingZone((i + 1) as usize)
                &&& a == ActionView::LookupZone {
                    zone: c.zones[i + 1],
                    url: "https://api.cloudflare.com/client/v4/zones?name="@ + c.zones[i + 1],
                }
            } else {
                &&& c2.stage == Stage::Finished
                &&& a == ActionView::Finish(Ok(()))
            }
        }),
{
}

/// A round never changes its hosts, zones or record types; the IPv4 address is
/// set once, to the address fetched, and kept from then on.
pub proof fn lemma_round_keeps_its_inputs(c: CycleView, e: EventView)
    requires
        well_formed(c),
        accepts(c, e),
    ensures
        ({
            let c2 = spec_step(c, e).0;
            &&& c2.hosts == c.hosts
            &&& c2.zones == c.zones
            &&& c2.ipv4 == c.ipv4
            &&& c2.ipv6 == c.ipv6
            &&& c.stage != Stage::AwaitingIpv4 ==> c2.address_v4 == c.address_v4
            &&& (c.stage == Stage::AwaitingIpv4 && e is AddressFetched
                && e->AddressFetched_0 is Ok) ==> c2.address_v4 == e->AddressFetched_0->Ok_0
        }),
{
}

/// Once the id of zone `i` is found, the round lists the `A` records named
/// `host_i.zone_i` in that zone, then creates the record when there is none,
/// leaves it when the first record holds the external IPv4 address, and else
/// updates the first record; every write goes to that zone, for that name and
/// that address, proxied with an automatic time to live.
pub proof fn lemma_writes_go_to_the_pair(
    c: CycleView,
    i: usize,
    id: Seq<char>,
    records: Seq<DnsRecordView>,
)
    requires
        well_formed(c),
        c.stage == Stage::AwaitingZone(i),
        records.len() > 0 && records[0].content != Some(c.address_v4) ==> records[0].id is Some,
    ensures
        ({
            let name = c.hosts[i as int] + "."@ + c.zones[i as int];
            let body = RecordBodyView {
                record_type: "A"@,
                name,
                content: c.address_v4,
                ttl: 1,
                proxied: true,
            };
            let (c1, a1) = spec_step(c, EventView::ZoneFound(Ok(id)));
            let (c2, a2) = spec_step(c1, EventView::RecordsListed(Ok(records)));
            &&& a1 == ActionView::ListRecords {
                url: "https://api.cloudflare.com/client/v4/zones/"@ + id + "/dns_records?name="@
                    + name + "&type="@ + "A"@,
            }
            &&& accepts(c1, EventView::RecordsListed(Ok(records)))
            &&& records.len() == 0 ==> a2 == ActionView::CreateRecord {
                url: "https://api.cloudflare.com/client/v4/zones/"@ + id + "/dns_records"@,
                body,
            }
            &&& (records.len() > 0 && records[0].content == Some(c.address_v4)) ==> a2
                == ActionView::Report {
                host: c.hosts[i as int],
                zone: c.zones[i as int],
                outcome: PairOutcomeView::Unchanged,
            }
            &&& (records.len() > 0 && records[0].content != Some(c.address_v4)) ==> a2
                == ActionView::UpdateRecord {
                url: "https://api.cloudflare.com/client/v4/zones/"@ + id + "/dns_records/"@
                    + records[0].id->0,
                body,
            }
        }),
{
}

/// What each step of a round does, by its inputs: a round starts by fetching
/// the IPv4 address, or ends with `IPv4 is unused` when it is not to; the IPv6
/// address is fetched only when asked for, and stands as `IPv6 is unused`
/// otherwise; a failed address fetch or zone lookup ends the round with its
/// error; a listing that fails, or a write, is reported with its outcome.
pub proof fn lemma_round_steps(c: CycleView, e: EventView)
    requires
        well_formed(c),
        accepts(c, e),
    ensures
        ({
            let (c2, a) = spec_step(c, e);
            &&& (c.stage == Stage::NotStarted && c.ipv4) ==> (a == ActionView::FetchIpv4
                && c2.stage == Stage::AwaitingIpv4)
            &&& (c.stage == Stage::NotStarted && !c.ipv4) ==> (a == ActionView::Finish(
                Err("IPv4 is unused"@),
            ) && c2.stage == Stage::Finished)
            &&& (c.stage == Stage::AwaitingIpv4 && c.ipv6 && e->AddressFetched_0 is Ok) ==> (a
                == ActionView::FetchIpv6 && c2.stage == Stage::AwaitingIpv6)
            &&& (c.stage == Stage::AwaitingIpv4 && !c.ipv6 && e->AddressFetched_0 is Ok)
                ==> c2.address_v6 == "IPv6 is unused"@
            &&& (c.stage == Stage::AwaitingIpv6 && e->AddressFetched_0 is Ok) ==> c2.address_v6
                == e->AddressFetched_0->Ok_0
            &&& ((c.stage == Stage::AwaitingIpv4 || c.stage == Stage::AwaitingIpv6)
                && e->AddressFetched_0 is Err) ==> (a == ActionView::Finish(
                Err(e->AddressFetched_0->Err_0),
            ) && c2.stage == Stage::Finished)
            &&& (c.stage is AwaitingZone && e->ZoneFound_0 is Err) ==> (a == ActionView::Finish(
                Err(e->ZoneFound_0->Err_0),
            ) && c2.stage == Stage::Finished)
            &&& (c.stage is AwaitingZone && e->ZoneFound_0 is Ok) ==> c2.zone_id
                == e->ZoneFound_0->Ok_0
            &&& (c.stage is AwaitingRecords && e->RecordsListed_0 is Err) ==> a
                == ActionView::Report {
                host: c.hosts[stage_index(c.stage)->0],
                zone: c.zones[stage_index(c.stage)->0],
                outcome: PairOutcomeView::Failed(e->RecordsListed_0->Err_0),
            }
            &&& (c.stage is AwaitingCreate || c.stage is AwaitingUpdate) ==> ({
                let outcome = if e->RecordWritten_0 is Err {
                    PairOutcomeView::Failed(e->RecordWritten_0->Err_0)
                } else if c.stage is AwaitingCreate {
                    PairOutcomeView::Created
                } else {
                    PairOutcomeView::Updated
                };
                a == ActionView::Report {
                    host: c.hosts[stage_index(c.stage)->0],
                    zone: c.zones[stage_index(c.stage)->0],
                    outcome,
                }
            })
        }),
{
}

} // verus!
