//! Trash and recycling pickup: the request address and the reduction of the
//! service's reply to the short record shown on the board.
use vstd::prelude::*;

verus! {

/// Base address of the pickup lookup service; the configured location is
/// appended to it as it stands (already URL-encoded).
pub const PGH_ST_URL: &'static str = "https://pgh.st/locate/";

/// One entry of the pickup service's reply.
pub struct TrashInfo {
    pub division: String,
    pub next_yard_date: String,
    pub next_recycling_date_long: String,
    pub regular_trash_pickup_day: i32,
    pub zip: i32,
    pub next_yard_date_long: String,
    pub division_sched: i32,
    pub number: String,
    pub next_pickup_date: String,
    pub holiday_cancellation: bool,
    pub street: String,
    pub hood: String,
    pub other_cancellation: bool,
    pub next_pickup_date_long: String,
    pub next_recycling_date: String,
    pub next_recycling: String,
}

/// The part of a [`TrashInfo`] that the board shows.
pub struct ShortTrashInfo {
    pub next_yard_date_long: String,
    pub next_recycling_date_long: String,
    pub next_pickup_date_long: String,
    pub holiday_cancellation: bool,
    pub other_cancellation: bool,
}

/// The short record of one reply entry: its long dates and its two
/// cancellation flags, unchanged.
pub open spec fn short_of(value: TrashInfo) -> ShortTrashInfo {
    ShortTrashInfo {
        next_yard_date_long: value.next_yard_date_long,
        next_recycling_date_long: value.next_recycling_date_long,
        next_pickup_date_long: value.next_pickup_date_long,
        holiday_cancellation: value.holiday_cancellation,
        other_cancellation: value.other_cancellation,
    }
}

impl From<TrashInfo> for ShortTrashInfo {
    fn from(value: TrashInfo) -> (res: Self)
        ensures
            res.next_yard_date_long == value.next_yard_date_long,
            res.next_recycling_date_long == value.next_recycling_date_long,
            res.next_pickup_date_long == value.next_pickup_date_long,
            res.holiday_cancellation == value.holiday_cancellation,
            res.other_cancellation == value.other_cancellation,
    {
        ShortTrashInfo {
            next_yard_date_long: value.next_yard_date_long,
            next_recycling_date_long: value.next_recycling_date_long,
            next_pickup_date_long: value.next_pickup_date_long,
            holiday_cancellation: value.holiday_cancellation,
            other_cancellation: value.other_cancellation,
        }
    }
}

impl vstd::std_specs::convert::FromSpecImpl<TrashInfo> for ShortTrashInfo {
    open spec fn obeys_from_spec() -> bool {
        true
    }

    open spec fn from_spec(v: TrashInfo) -> Self {
        short_of(v)
    }
}

/// Why a pickup reply was refused.
#[derive(Debug, PartialEq, Eq, Structural)]
pub enum TrashError {
    /// The service answered with this many entries where exactly one was
    /// expected (the location must name a single address).
    ResponseError(usize),
}

/// The address that asks the pickup service about `location`: the service's
/// base address followed by the location, character for character.
pub fn trash_url(location: &str) -> (res: String)
    ensures
        res@ == PGH_ST_URL@ + location@,
{
    let mut url = String::from_str(PGH_ST_URL);
    url.append(location);
    url
}

/// What the board shows for a parsed reply of the pickup service: the short
/// record of its only entry, or the number of entries when there is not
/// exactly one.
pub open spec fn trash_outcome(infos: Seq<TrashInfo>) -> Result<ShortTrashInfo, TrashError> {
    if infos.len() == 1 {
        Ok(short_of(infos[0]))
    } else {
        Err(TrashError::ResponseError(infos.len() as usize))
    }
}

/// Reduces the pickup service's reply to the board's record. A reply must
/// hold exactly one entry; any other count is refused with that count.
pub fn get_trash(infos: Vec<TrashInfo>) -> (res: Result<ShortTrashInfo, TrashError>)
    ensures
        res == trash_outcome(infos@),
        infos@.len() == 1 <==> res is Ok,
        res matches Ok(s) ==> {
            &&& s.next_pickup_date_long == infos@[0].next_pickup_date_long
            &&& s.next_recycling_date_long == infos@[0].next_recycling_date_long
            &&& s.next_yard_date_long == infos@[0].next_yard_date_long
            &&& s.holiday_cancellation == infos@[0].holiday_cancellation
            &&& s.other_cancellation == infos@[0].other_cancellation
        },
        res matches Err(TrashError::ResponseError(n)) ==> n == infos@.len(),
{
    let count = infos.len();
    if count == 1 {
        let mut infos = infos;
        let first = infos.remove(0);
        Ok(ShortTrashInfo::from(first))
    } else {
        Err(TrashError::ResponseError(count))
    }
}

/// A reply with a single entry gives that entry's short record, the same as
/// converting the entry with `From`.
pub proof fn lemma_single_entry(info: TrashInfo)
    ensures
        trash_outcome(seq![info]) == Ok::<ShortTrashInfo, TrashError>(short_of(info)),
        short_of(info) == <ShortTrashInfo as vstd::std_specs::convert::FromSpec<TrashInfo>>::from_spec(info),
{
}

/// A reply is refused exactly when it does not hold one entry, and the
/// refusal reports how many it held.
pub proof fn lemma_refused_counts(infos: Seq<TrashInfo>)
    requires
        infos.len() <= usize::MAX,
    ensures
        trash_outcome(infos) is Err <==> infos.len() != 1,
        trash_outcome(infos) matches Err(TrashError::ResponseError(n)) ==> n == infos.len(),
{
}

/// For every single-entry reply, whatever its cancellation flags, the board's
/// record carries the entry's three long dates and its two flags, each from
/// the field of the same name.
pub proof fn lemma_single_entry_fields(info: TrashInfo)
    ensures
        trash_outcome(seq![info]) is Ok,
        trash_outcome(seq![info]) matches Ok(s) ==> {
            &&& s.next_pickup_date_long == info.next_pickup_date_long
            &&& s.next_recycling_date_long == info.next_recycling_date_long
            &&& s.next_yard_date_long == info.next_yard_date_long
            &&& s.holiday_cancellation == info.holiday_cancellation
            &&& s.other_cancellation == info.other_cancellation
        },
{
}

/// The pickup address starts with the service's base address and ends with
/// the whole location, nothing cut or added.
pub proof fn lemma_trash_url_parts(location: Seq<char>)
    ensures
        ({
            let u = PGH_ST_URL@ + location;
            &&& u.len() == PGH_ST_URL@.len() + location.len()
            &&& u.subrange(0, PGH_ST_URL@.len() as int) == PGH_ST_URL@
            &&& u.subrange(PGH_ST_URL@.len() as int, u.len() as int) == location
        }),
{
    let u = PGH_ST_URL@ + location;
    assert(u.subrange(0, PGH_ST_URL@.len() as int) =~= PGH_ST_URL@);
    assert(u.subrange(PGH_ST_URL@.len() as int, u.len() as int) =~= location);
}

} // verus!
