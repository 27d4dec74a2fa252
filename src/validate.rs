use vstd::prelude::*;
use vstd::string::*;

use crate::decimal::{decimal, lemma_parse_decimal, parse_u64, parsed_u64, to_decimal};
use crate::error::Error;

verus! {

/// Upper bound, in characters, on a brand or location id. The bound is a
/// placeholder business rule rather than a protocol limit.
pub const MAX_ID_LEN: usize = 64;

/// A brand id whose length is within `MAX_ID_LEN`.
#[derive(Debug)]
pub struct BrandId(String);

impl View for BrandId {
    type V = Seq<char>;

    closed spec fn view(&self) -> Seq<char> {
        self.0@
    }
}

impl BrandId {
    #[verifier::type_invariant]
    closed spec fn inv(&self) -> bool {
        self.0@.len() <= MAX_ID_LEN
    }

    /// Accepts `raw_brand_id` unchanged when it has at most `MAX_ID_LEN` characters.
    pub fn new(raw_brand_id: String) -> (r: Result<Self, Error>)
        ensures
            raw_brand_id@.len() <= MAX_ID_LEN ==> (r matches Ok(b) && b@ == raw_brand_id@),
            raw_brand_id@.len() > MAX_ID_LEN ==> r == Err::<Self, Error>(
                Error::ValidateInvalidBrandId(raw_brand_id),
            ),
    {
        if raw_brand_id.as_str().unicode_len() <= MAX_ID_LEN {
            Ok(BrandId(raw_brand_id))
        } else {
            Err(Error::ValidateInvalidBrandId(raw_brand_id))
        }
    }

    pub fn as_str(&self) -> (r: &str)
        ensures
            r@ == self@,
    {
        self.0.as_str()
    }
}

/// A location id whose length is within `MAX_ID_LEN`.
#[derive(Debug)]
pub struct LocationId(String);

impl View for LocationId {
    type V = Seq<char>;

    closed spec fn view(&self) -> Seq<char> {
        self.0@
    }
}

impl LocationId {
    #[verifier::type_invariant]
    closed spec fn inv(&self) -> bool {
        self.0@.len() <= MAX_ID_LEN
    }

    /// Accepts `raw_location_id` unchanged when it has at most `MAX_ID_LEN` characters.
    pub fn new(raw_location_id: String) -> (r: Result<Self, Error>)
        ensures
            raw_location_id@.len() <= MAX_ID_LEN ==> (r matches Ok(l) && l@ == raw_location_id@),
            raw_location_id@.len() > MAX_ID_LEN ==> r == Err::<Self, Error>(
                Error::ValidateInvalidLocationId(raw_location_id),
            ),
    {
        if raw_location_id.as_str().unicode_len() <= MAX_ID_LEN {
            Ok(LocationId(raw_location_id))
        } else {
            Err(Error::ValidateInvalidLocationId(raw_location_id))
        }
    }

    pub fn as_str(&self) -> (r: &str)
        ensures
            r@ == self@,
    {
        self.0.as_str()
    }
}

/// What validating a span gives: the pair `(from, to)`, or the error. A text
/// that does not parse is reported before the order is looked at, the start
/// first.
pub open spec fn span_outcome(raw_from_date: String, raw_to_date: String) -> Result<
    (u64, u64),
    Error,
> {
    match (parsed_u64(raw_from_date@), parsed_u64(raw_to_date@)) {
        (None, _) => Err(Error::ValidateInvalidTimestamp(raw_from_date)),
        (Some(_), None) => Err(Error::ValidateInvalidTimestamp(raw_to_date)),
        (Some(f), Some(t)) => if t >= f {
            Ok((f, t))
        } else {
            Err(Error::ValidateInvalidDateTimeSpan(f, t))
        },
    }
}

/// Span validation of the decimal texts of two numbers `a` and `b` succeeds
/// with `(a, b)` when `b >= a`, and fails with the ordering error, not a parse
/// error, when `b < a`.
pub proof fn lemma_span_of_numbers(raw_from_date: String, raw_to_date: String, a: u64, b: u64)
    requires
        raw_from_date@ == decimal(a as nat),
        raw_to_date@ == decimal(b as nat),
    ensures
        b >= a ==> span_outcome(raw_from_date, raw_to_date) == Ok::<(u64, u64), Error>((a, b)),
        b < a ==> span_outcome(raw_from_date, raw_to_date) == Err::<(u64, u64), Error>(
            Error::ValidateInvalidDateTimeSpan(a, b),
        ),
{
    lemma_parse_decimal(a);
    lemma_parse_decimal(b);
}

/// A span of epoch-millisecond timestamps `(from, to)` with `from <= to`.
#[derive(Debug)]
pub struct DateTimeSpan(u64, u64);

impl View for DateTimeSpan {
    type V = (u64, u64);

    closed spec fn view(&self) -> (u64, u64) {
        (self.0, self.1)
    }
}

impl DateTimeSpan {
    #[verifier::type_invariant]
    closed spec fn inv(&self) -> bool {
        self.0 <= self.1
    }

    /// Parses both ends as base-10 `u64` and accepts them when `to >= from`.
    /// A text that does not parse is reported before the order is looked at,
    /// the start first.
    pub fn new(raw_from_date: String, raw_to_date: String) -> (r: Result<Self, Error>)
        ensures
            match span_outcome(raw_from_date, raw_to_date) {
                Ok(v) => r matches Ok(span) && span@ == v,
                Err(e) => r == Err::<Self, Error>(e),
            },
    {
        let from_date = match parse_u64(raw_from_date.as_str()) {
            Some(v) => v,
            None => return Err(Error::ValidateInvalidTimestamp(raw_from_date)),
        };
        let to_date = match parse_u64(raw_to_date.as_str()) {
            Some(v) => v,
            None => return Err(Error::ValidateInvalidTimestamp(raw_to_date)),
        };
        if to_date >= from_date {
            Ok(DateTimeSpan(from_date, to_date))
        } else {
            Err(Error::ValidateInvalidDateTimeSpan(from_date, to_date))
        }
    }

    pub fn from_date(&self) -> (r: u64)
        ensures
            r == self@.0,
    {
        self.0
    }

    pub fn to_date(&self) -> (r: u64)
        ensures
            r == self@.1,
    {
        self.1
    }
}

/// What validating a brand id gives: its text, or the error.
pub open spec fn brand_outcome(raw_brand_id: String) -> Result<Seq<char>, Error> {
    if raw_brand_id@.len() <= MAX_ID_LEN {
        Ok(raw_brand_id@)
    } else {
        Err(Error::ValidateInvalidBrandId(raw_brand_id))
    }
}

/// What validating a brand id and then a location id gives.
pub open spec fn pair_outcome(raw_brand_id: String, raw_location_id: String) -> Result<
    (Seq<char>, Seq<char>),
    Error,
> {
    if raw_brand_id@.len() > MAX_ID_LEN {
        Err(Error::ValidateInvalidBrandId(raw_brand_id))
    } else if raw_location_id@.len() > MAX_ID_LEN {
        Err(Error::ValidateInvalidLocationId(raw_location_id))
    } else {
        Ok((raw_brand_id@, raw_location_id@))
    }
}

/// What validating a brand id, a location id and then a span gives.
pub open spec fn specific_outcome(
    raw_brand_id: String,
    raw_location_id: String,
    raw_from_date: String,
    raw_to_date: String,
) -> Result<(Seq<char>, Seq<char>, u64, u64), Error> {
    match pair_outcome(raw_brand_id, raw_location_id) {
        Err(e) => Err(e),
        Ok((b, l)) => match span_outcome(raw_from_date, raw_to_date) {
            Err(e) => Err(e),
            Ok((f, t)) => Ok((b, l, f, t)),
        },
    }
}

/// Path of a `get` request: `get/{brand}`.
pub open spec fn get_path(brand: Seq<char>) -> Seq<char> {
    "get/"@ + brand
}

/// Path of a `last_run` request: `last_run/{brand}/{location}`.
pub open spec fn last_run_path(brand: Seq<char>, location: Seq<char>) -> Seq<char> {
    "last_run/"@ + brand + "/"@ + location
}

/// Path of a `run` request: `run/{brand}/{location}`.
pub open spec fn run_path(brand: Seq<char>, location: Seq<char>) -> Seq<char> {
    "run/"@ + brand + "/"@ + location
}

/// Path of a `specific` request: `specific/{brand}/{location}/{from}/{to}`.
pub open spec fn specific_path(brand: Seq<char>, location: Seq<char>, from: u64, to: u64) -> Seq<
    char,
> {
    "specific/"@ + brand + "/"@ + location + "/"@ + decimal(from as nat) + "/"@ + decimal(
        to as nat,
    )
}

/// Validated parameters of a `get` request.
#[derive(Debug)]
pub struct GetParameters {
    brand_id: BrandId,
}

impl View for GetParameters {
    type V = Seq<char>;

    closed spec fn view(&self) -> Seq<char> {
        self.brand_id@
    }
}

impl GetParameters {
    pub fn new(raw_brand_id: String) -> (r: Result<Self, Error>)
        ensures
            raw_brand_id@.len() <= MAX_ID_LEN ==> (r matches Ok(p) && p@ == raw_brand_id@),
            raw_brand_id@.len() > MAX_ID_LEN ==> r == Err::<Self, Error>(
                Error::ValidateInvalidBrandId(raw_brand_id),
            ),
    {
        match BrandId::new(raw_brand_id) {
            Ok(brand_id) => Ok(GetParameters { brand_id }),
            Err(e) => Err(e),
        }
    }

    /// The request path, `get/{brand}`.
    pub fn path(&self) -> (r: String)
        ensures
            r@ == get_path(self@),
    {
        let mut r = String::from_str("get/");
        r.append(self.brand_id.as_str());
        r
    }
}

/// Validated parameters of a `last_run` request.
#[derive(Debug)]
pub struct LastRunParameters {
    brand_id: BrandId,
    location_id: LocationId,
}

impl View for LastRunParameters {
    type V = (Seq<char>, Seq<char>);

    closed spec fn view(&self) -> (Seq<char>, Seq<char>) {
        (self.brand_id@, self.location_id@)
    }
}

impl LastRunParameters {
    /// Validates the brand first, then the location.
    pub fn new(raw_brand_id: String, raw_location_id: String) -> (r: Result<Self, Error>)
        ensures
            raw_brand_id@.len() > MAX_ID_LEN ==> r == Err::<Self, Error>(
                Error::ValidateInvalidBrandId(raw_brand_id),
            ),
            raw_brand_id@.len() <= MAX_ID_LEN && raw_location_id@.len() > MAX_ID_LEN ==> r == Err::<
                Self,
                Error,
            >(Error::ValidateInvalidLocationId(raw_location_id)),
            raw_brand_id@.len() <= MAX_ID_LEN && raw_location_id@.len() <= MAX_ID_LEN ==> (r matches Ok(
                p,
            ) && p@ == (raw_brand_id@, raw_location_id@)),
    {
        let brand_id = match BrandId::new(raw_brand_id) {
            Ok(b) => b,
            Err(e) => return Err(e),
        };
        let location_id = match LocationId::new(raw_location_id) {
            Ok(l) => l,
            Err(e) => return Err(e),
        };
        Ok(LastRunParameters { brand_id, location_id })
    }

    /// The request path, `last_run/{brand}/{location}`.
    pub fn path(&self) -> (r: String)
        ensures
            r@ == last_run_path(self@.0, self@.1),
    {
        let mut r = String::from_str("last_run/");
        r.append(self.brand_id.as_str());
        r.append("/");
        r.append(self.location_id.as_str());
        r
    }
}

/// Validated parameters of a `run` request.
#[derive(Debug)]
pub struct RunParameters {
    brand_id: BrandId,
    location_id: LocationId,
}

impl View for RunParameters {
    type V = (Seq<char>, Seq<char>);

    closed spec fn view(&self) -> (Seq<char>, Seq<char>) {
        (self.brand_id@, self.location_id@)
    }
}

impl RunParameters {
    /// Validates the brand first, then the location.
    pub fn new(raw_brand_id: String, raw_location_id: String) -> (r: Result<Self, Error>)
        ensures
            raw_brand_id@.len() > MAX_ID_LEN ==> r == Err::<Self, Error>(
                Error::ValidateInvalidBrandId(raw_brand_id),
            ),
            raw_brand_id@.len() <= MAX_ID_LEN && raw_location_id@.len() > MAX_ID_LEN ==> r == Err::<
                Self,
                Error,
            >(Error::ValidateInvalidLocationId(raw_location_id)),
            raw_brand_id@.len() <= MAX_ID_LEN && raw_location_id@.len() <= MAX_ID_LEN ==> (r matches Ok(
                p,
            ) && p@ == (raw_brand_id@, raw_location_id@)),
    {
        let brand_id = match BrandId::new(raw_brand_id) {
            Ok(b) => b,
            Err(e) => return Err(e),
        };
        let location_id = match LocationId::new(raw_location_id) {
            Ok(l) => l,
            Err(e) => return Err(e),
        };
        Ok(RunParameters { brand_id, location_id })
    }

    /// The request path, `run/{brand}/{location}`.
    pub fn path(&self) -> (r: String)
        ensures
            r@ == run_path(self@.0, self@.1),
    {
        let mut r = String::from_str("run/");
        r.append(self.brand_id.as_str());
        r.append("/");
        r.append(self.location_id.as_str());
        r
    }
}

/// Validated parameters of a `specific` request.
#[derive(Debug)]
pub struct SpecificParameters {
    brand_id: BrandId,
    location_id: LocationId,
    date_time_span: DateTimeSpan,
}

impl View for SpecificParameters {
    type V = (Seq<char>, Seq<char>, u64, u64);

    closed spec fn view(&self) -> (Seq<char>, Seq<char>, u64, u64) {
        (self.brand_id@, self.location_id@, self.date_time_span@.0, self.date_time_span@.1)
    }
}

impl SpecificParameters {
    /// Validates the brand, then the location, then the span.
    pub fn new(
        raw_brand_id: String,
        raw_location_id: String,
        raw_from_date: String,
        raw_to_date: String,
    ) -> (r: Result<Self, Error>)
        ensures
            match specific_outcome(raw_brand_id, raw_location_id, raw_from_date, raw_to_date) {
                Ok(v) => r matches Ok(p) && p@ == v,
                Err(e) => r == Err::<Self, Error>(e),
            },
    {
        let brand_id = match BrandId::new(raw_brand_id) {
            Ok(b) => b,
            Err(e) => return Err(e),
        };
        let location_id = match LocationId::new(raw_location_id) {
            Ok(l) => l,
            Err(e) => return Err(e),
        };
        let date_time_span = match DateTimeSpan::new(raw_from_date, raw_to_date) {
            Ok(s) => s,
            Err(e) => return Err(e),
        };
        Ok(SpecificParameters { brand_id, location_id, date_time_span })
    }

    /// The request path, `specific/{brand}/{location}/{from}/{to}`.
    pub fn path(&self) -> (r: String)
        ensures
            r@ == specific_path(self@.0, self@.1, self@.2, self@.3),
    {
        let mut r = String::from_str("specific/");
        r.append(self.brand_id.as_str());
        r.append("/");
        r.append(self.location_id.as_str());
        r.append("/");
        let from = to_decimal(self.date_time_span.from_date());
        r.append(from.as_str());
        r.append("/");
        let to = to_decimal(self.date_time_span.to_date());
        r.append(to.as_str());
        r
    }
}

} // verus!
