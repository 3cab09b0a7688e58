use vstd::prelude::*;

verus! {

/// The RFC 3339 text that chrono renders, in UTC, for a given number of
/// seconds since the Unix epoch. The rendering depends on the value alone.
pub uninterp spec fn iso8601_of(secs: int) -> Seq<char>;

/// Whether chrono can represent a seconds value as an instant: exactly the
/// values for which `DateTime::<Utc>::from_timestamp` returns `Some`. The
/// answer depends on the seconds value alone.
pub uninterp spec fn rfc3339_representable(secs: int) -> bool;

/// Relies on std's `SystemTime::now` and `duration_since`: the current
/// wall-clock time as whole seconds relative to the Unix epoch — `Ok` with
/// the seconds elapsed since the epoch, `Err` with the seconds still to run
/// up to it for a clock set before the epoch. Neither branch panics, and
/// nothing is promised of the values.
#[verifier::external_body]
fn clock_from_epoch() -> Result<u64, u64> {
    match std::time::SystemTime::now().duration_since(std::time::UNIX_EPOCH) {
        Ok(d) => Ok(d.as_secs()),
        Err(e) => Err(e.duration().as_secs()),
    }
}

/// The clock reading as signed seconds since the Unix epoch; `None` for a
/// reading too large for a signed 64-bit count.
fn clock_seconds() -> Option<i64> {
    match clock_from_epoch() {
        Ok(s) => {
            if s <= i64::MAX as u64 {
                Some(s as i64)
            } else {
                None
            }
        },
        Err(s) => {
            if s <= i64::MAX as u64 {
                let v: i64 = s as i64;
                Some(-v)
            } else {
                None
            }
        },
    }
}

/// Relies on chrono's `DateTime::<Utc>::from_timestamp` and
/// `DateTime::to_rfc3339`: `Some` exactly on the seconds values chrono can
/// represent — a matter of the seconds value alone — and then the RFC 3339
/// text of that instant in UTC, which likewise depends on the seconds value
/// alone.
#[verifier::external_body]
fn rfc3339_utc(secs: i64) -> (r: Option<String>)
    ensures
        r is Some <==> rfc3339_representable(secs as int),
        r matches Some(s) ==> s@ == iso8601_of(secs as int),
{
    match chrono::DateTime::<chrono::Utc>::from_timestamp(secs, 0) {
        Some(d) => Some(d.to_rfc3339()),
        None => None,
    }
}

/// A point in time: whole seconds since the Unix epoch, together with the
/// text that was rendered for that instant when the stamp was made.
pub struct Stamp {
    pub secs: i64,
    pub iso: String,
}

impl Stamp {
    /// Field-wise agreement of two stamps.
    pub open spec fn agrees(self, other: Stamp) -> bool {
        self.secs == other.secs && self.iso@ == other.iso@
    }

    /// The stamp for a given seconds value: `Some` exactly when chrono can
    /// represent the value as an instant, and then with that value and its
    /// text.
    pub fn from_secs(secs: i64) -> (r: Option<Stamp>)
        ensures
            r is Some <==> rfc3339_representable(secs as int),
            r matches Some(s) ==> (s.secs == secs && s.iso@ == iso8601_of(secs as int)),
    {
        match rfc3339_utc(secs) {
            Some(iso) => Some(Stamp { secs, iso }),
            None => None,
        }
    }

    /// A stamp for the present moment; `None` only when the clock's value
    /// cannot be carried or represented.
    pub fn now() -> (r: Option<Stamp>)
        ensures
            r matches Some(s) ==> (s.iso@ == iso8601_of(s.secs as int)
                && rfc3339_representable(s.secs as int)),
    {
        match clock_seconds() {
            Some(secs) => Stamp::from_secs(secs),
            None => None,
        }
    }

    /// A copy with the same seconds and the same text.
    pub fn duplicate(&self) -> (r: Stamp)
        ensures
            r.agrees(*self),
    {
        Stamp { secs: self.secs, iso: self.iso.as_str().to_string() }
    }
}

} // verus!
