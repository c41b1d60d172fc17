use crate::config::Config;
use std::str::FromStr;
use vstd::prelude::*;

verus! {

/// One entry of a bucket listing: the key, the modification time as the store
/// wrote it, and the size in bytes where the store gave one.
#[derive(Debug, PartialEq, Eq)]
pub struct StorageObject {
    pub key: String,
    pub last_modified: String,
    pub size: Option<i64>,
}

/// Why a bucket could not be listed, in words.
#[derive(Debug, Clone, PartialEq, Eq)]
pub struct StorageError {
    pub message: String,
}

/// The Unix time, in whole seconds, that `chrono` reads out of `text` as an
/// RFC 3339 date and time; `None` where `chrono` rejects the text.
pub uninterp spec fn rfc3339_seconds(text: Seq<char>) -> Option<i64>;

/// Calls `chrono::DateTime::parse_from_rfc3339` and, on success,
/// `DateTime::timestamp`. Trusted: the outcome depends on the text alone, so it
/// is `rfc3339_seconds` of the text. Nothing is claimed about which texts
/// parse or to what.
#[verifier::external_body]
fn parse_timestamp(text: &str) -> (seconds: Option<i64>)
    ensures
        seconds == rfc3339_seconds(text@),
{
    match chrono::DateTime::parse_from_rfc3339(text) {
        Ok(parsed) => Some(parsed.timestamp()),
        Err(_) => None,
    }
}

/// Calls `chrono::Utc::now` and `DateTime::timestamp`: the system clock as
/// Unix seconds. Trusted, with nothing claimed about the value. `chrono` does
/// not return when the clock stands before 1970.
#[verifier::external_body]
fn current_timestamp() -> (now: i64) {
    chrono::Utc::now().timestamp()
}

/// An object modified at `last_modified` is fresh at `now` when strictly less
/// than `max_age` seconds have passed since. An object whose modification time
/// is unknown is never fresh.
pub open spec fn fresh_at(last_modified: Option<i64>, max_age: i64, now: i64) -> bool {
    match last_modified {
        Some(modified) => now - modified < max_age,
        None => false,
    }
}

/// Decides freshness from a modification time that has been parsed already.
pub fn is_fresh(last_modified: Option<i64>, max_age: i64, now: i64) -> (fresh: bool)
    ensures
        fresh == fresh_at(last_modified, max_age, now),
{
    match last_modified {
        Some(modified) => {
            let elapsed: i128 = now as i128 - modified as i128;
            elapsed < max_age as i128
        },
        None => false,
    }
}

impl StorageObject {
    /// The object's modification time as Unix seconds, where its text is a
    /// date and time.
    pub open spec fn modified_at(&self) -> Option<i64> {
        rfc3339_seconds(self.last_modified@)
    }

    /// Whether the object counts as present for a window of `max_age` seconds
    /// that ends at `now`.
    pub open spec fn fresh(&self, max_age: i64, now: i64) -> bool {
        fresh_at(self.modified_at(), max_age, now)
    }

    /// Parses the modification time and decides freshness. A time that does
    /// not parse makes the object stale; it is no error.
    pub fn is_fresh(&self, max_age: i64, now: i64) -> (fresh: bool)
        ensures
            fresh == self.fresh(max_age, now),
    {
        let modified = parse_timestamp(self.last_modified.as_str());
        is_fresh(modified, max_age, now)
    }

}

impl Clone for StorageObject {
    fn clone(&self) -> (copy: StorageObject)
        ensures
            copy == *self,
    {
        StorageObject {
            key: self.key.clone(),
            last_modified: self.last_modified.clone(),
            size: self.size,
        }
    }
}

/// The fresh objects of a listing, in the listing's order.
pub open spec fn fresh_objects(objects: Seq<StorageObject>, max_age: i64, now: i64) -> Seq<
    StorageObject,
> {
    objects.filter(|object: StorageObject| object.fresh(max_age, now))
}

/// The store's answer to a listing, its objects as a sequence.
pub open spec fn listed(answer: Result<Vec<StorageObject>, StorageError>) -> Result<
    Seq<StorageObject>,
    StorageError,
> {
    match answer {
        Ok(found) => Ok(found@),
        Err(error) => Err(error),
    }
}

/// The store's answer cut down to what is fresh: a listing keeps its fresh
/// objects, a failure stays the failure it is.
pub open spec fn fresh_listed(
    answer: Result<Vec<StorageObject>, StorageError>,
    max_age: i64,
    now: i64,
) -> Result<Seq<StorageObject>, StorageError> {
    match answer {
        Ok(found) => Ok(fresh_objects(found@, max_age, now)),
        Err(error) => Err(error),
    }
}

/// Keeps the fresh objects of a listing and drops the rest.
pub fn filter_fresh(objects: &Vec<StorageObject>, max_age: i64, now: i64) -> (fresh: Vec<
    StorageObject,
>)
    ensures
        fresh@ == fresh_objects(objects@, max_age, now),
{
    let ghost keep = |object: StorageObject| object.fresh(max_age, now);
    let mut fresh: Vec<StorageObject> = Vec::new();
    let mut i: usize = 0;
    proof {
        reveal(Seq::filter);
        assert(objects@.take(0) =~= Seq::<StorageObject>::empty());
    }
    while i < objects.len()
        invariant
            i <= objects.len(),
            keep == |object: StorageObject| object.fresh(max_age, now),
            fresh@ == objects@.take(i as int).filter(keep),
        decreases objects.len() - i,
    {
        let object = &objects[i];
        proof {
            reveal(Seq::filter);
            assert(objects@.take(i + 1).drop_last() =~= objects@.take(i as int));
            assert(objects@.take(i + 1).last() == objects@[i as int]);
        }
        if object.is_fresh(max_age, now) {
            fresh.push(object.clone());
        }
        i += 1;
    }
    proof {
        assert(objects@.take(i as int) =~= objects@);
    }
    fresh
}

/// The freshness filter is strict: an object whose age equals the window, to
/// the second, is not among the fresh objects of any listing.
pub proof fn lemma_boundary_is_stale(
    objects: Seq<StorageObject>,
    object: StorageObject,
    max_age: i64,
    now: i64,
)
    requires
        object.modified_at() is Some,
        now - object.modified_at().unwrap() == max_age,
    ensures
        !object.fresh(max_age, now),
        !fresh_objects(objects, max_age, now).contains(object),
{
    let keep = |o: StorageObject| o.fresh(max_age, now);
    let kept = objects.filter(keep);
    if kept.contains(object) {
        let i = choose|i: int| 0 <= i < kept.len() && kept[i] == object;
        objects.lemma_filter_pred(keep, i);
    }
}

/// A listing that has been asked for: what to list, the freshness window of
/// the check it serves, and the Unix time at which it was asked.
#[derive(Debug, Clone, PartialEq, Eq)]
pub struct Listing {
    pub bucket: String,
    pub prefix: String,
    pub max_age: i64,
    pub asked_at: i64,
}

impl Listing {
    /// Notes the time and what is to be listed. The time is read before the
    /// store is asked, so an object written while the store answers is fresh.
    pub fn begin(bucket: String, prefix: String, max_age: i64) -> (listing: Listing)
        ensures
            listing.bucket == bucket,
            listing.prefix == prefix,
            listing.max_age == max_age,
    {
        let asked_at = current_timestamp();
        Listing { bucket, prefix, max_age, asked_at }
    }

    /// Takes the store's answer to the listing and keeps what was fresh when
    /// the listing was asked for.
    pub fn objects(&self, answer: Result<Vec<StorageObject>, StorageError>) -> (fresh: Result<
        Vec<StorageObject>,
        StorageError,
    >)
        ensures
            listed(fresh) == fresh_listed(answer, self.max_age, self.asked_at),
    {
        match answer {
            Ok(found) => Ok(filter_fresh(&found, self.max_age, self.asked_at)),
            Err(error) => Err(error),
        }
    }
}

/// Where requests go: a region that the store's client knows by name, or an
/// endpoint given in full together with the name to sign for.
#[derive(Debug, Clone, PartialEq, Eq)]
pub enum RegionChoice {
    Standard { name: String },
    Custom { name: String, endpoint: String },
}

/// A region choice with its texts as character sequences.
pub enum RegionView {
    Standard { name: Seq<char> },
    Custom { name: Seq<char>, endpoint: Seq<char> },
}

impl View for RegionChoice {
    type V = RegionView;

    open spec fn view(&self) -> RegionView {
        match *self {
            RegionChoice::Standard { name } => RegionView::Standard { name: name@ },
            RegionChoice::Custom { name, endpoint } => RegionView::Custom {
                name: name@,
                endpoint: endpoint@,
            },
        }
    }
}

/// The configured region is no region that the client knows, and no endpoint
/// was configured beside it.
#[derive(Debug, Clone, PartialEq, Eq)]
pub struct RegionError {
    pub message: String,
}

/// The message with which `rusoto_core` rejects `name` as a region; `None`
/// where it knows the name.
pub uninterp spec fn region_parse_error(name: Seq<char>) -> Option<Seq<char>>;

/// Calls `rusoto_core::Region::from_str` and keeps only whether it failed and
/// with what message (the error's `to_string`). Trusted: the outcome depends
/// on the name alone, so it is `region_parse_error` of the name. Nothing is
/// claimed about which names are known.
#[verifier::external_body]
fn parse_region(name: &str) -> (error: Option<String>)
    ensures
        match error {
            Some(message) => region_parse_error(name@) == Some(message@),
            None => region_parse_error(name@) is None,
        },
{
    match rusoto_core::Region::from_str(name) {
        Ok(_) => None,
        Err(error) => Some(error.to_string()),
    }
}

/// The region for a configured endpoint and region name. An endpoint, where
/// one is configured, is used as it is, with the region name to sign for.
/// Without one the name must be a region that the client knows;
/// `parse_error` is what the client said of it.
pub open spec fn region_for(
    endpoint: Seq<char>,
    region: Seq<char>,
    parse_error: Option<Seq<char>>,
) -> Result<RegionView, Seq<char>> {
    if endpoint.len() > 0 {
        Ok(RegionView::Custom { name: region, endpoint })
    } else {
        match parse_error {
            None => Ok(RegionView::Standard { name: region }),
            Some(message) => Err(message),
        }
    }
}

/// Whether `choice` is `expected`, texts compared as character sequences.
pub open spec fn region_is(
    choice: Result<RegionChoice, RegionError>,
    expected: Result<RegionView, Seq<char>>,
) -> bool {
    match choice {
        Ok(region) => expected == Ok::<RegionView, Seq<char>>(region@),
        Err(error) => expected == Err::<RegionView, Seq<char>>(error.message@),
    }
}

/// Chooses the region once the client has said what it makes of the region
/// name.
pub fn choose_region(endpoint: &str, region: &str, parse_error: Option<String>) -> (choice: Result<
    RegionChoice,
    RegionError,
>)
    ensures
        region_is(
            choice,
            region_for(
                endpoint@,
                region@,
                match parse_error {
                    Some(message) => Some(message@),
                    None => None,
                },
            ),
        ),
{
    if !endpoint.is_empty() {
        Ok(RegionChoice::Custom { name: region.to_owned(), endpoint: endpoint.to_owned() })
    } else {
        match parse_error {
            None => Ok(RegionChoice::Standard { name: region.to_owned() }),
            Some(message) => Err(RegionError { message }),
        }
    }
}

/// Chooses the region that a configuration asks for, and fails where it names
/// neither an endpoint nor a region that the client knows.
pub fn resolve_region(config: &Config) -> (choice: Result<RegionChoice, RegionError>)
    ensures
        region_is(
            choice,
            region_for(
                config.s3mon.endpoint@,
                config.s3mon.region@,
                region_parse_error(config.s3mon.region@),
            ),
        ),
{
    let endpoint = config.s3mon.endpoint.as_str();
    let region = config.s3mon.region.as_str();
    if endpoint.is_empty() {
        choose_region(endpoint, region, parse_region(region))
    } else {
        choose_region(endpoint, region, None)
    }
}

} // verus!
