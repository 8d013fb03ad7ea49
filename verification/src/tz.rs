//! The timezone registry: a closed set of named zones, each with a fixed
//! UTC offset, plus name parsing and canonical stringification.

use vstd::prelude::*;
use vstd::string::StrSliceExecFns;
use vstd::string::StringExecFns;

verus! {

/// Error raised when a textual zone name matches none of the recognized
/// identifiers or aliases. Carries the offending input text.
#[derive(Debug)]
pub struct TimezoneNotSupportedErr {
    pub timezone: String,
}

/// The closed set of supported timezones. Each variant carries a fixed UTC
/// offset; the set is known at build time and has no DST or calendar rules.
#[derive(Clone, Copy, PartialEq, Eq, Structural, Debug)]
pub enum Timezone {
    UTC,
    CEST,
    MYT,
    AWST,
    ACWST,
    JST,
    ACST,
    AEST,
    LHST,
    EDT,
    EST,
    PDT,
}

/// A zone's fixed UTC offset in quarter-hour ticks, so that fractional-hour
/// offsets stay exact: ACWST's +8.75 hours is 35 ticks, LHST's +10.5 is 42.
pub open spec fn spec_offset_quarters(z: Timezone) -> int {
    match z {
        Timezone::PDT => -28,
        Timezone::EST => -20,
        Timezone::EDT => -16,
        Timezone::UTC => 0,
        Timezone::CEST => 8,
        Timezone::MYT => 32,
        Timezone::AWST => 32,
        Timezone::ACWST => 35,
        Timezone::JST => 36,
        Timezone::ACST => 38,
        Timezone::AEST => 40,
        Timezone::LHST => 42,
    }
}

/// A zone's canonical uppercase name.
pub open spec fn spec_zone_name(z: Timezone) -> Seq<char> {
    match z {
        Timezone::PDT => "PDT"@,
        Timezone::EST => "EST"@,
        Timezone::EDT => "EDT"@,
        Timezone::UTC => "UTC"@,
        Timezone::CEST => "CEST"@,
        Timezone::MYT => "MYT"@,
        Timezone::AWST => "AWST"@,
        Timezone::ACWST => "ACWST"@,
        Timezone::JST => "JST"@,
        Timezone::ACST => "ACST"@,
        Timezone::AEST => "AEST"@,
        Timezone::LHST => "LHST"@,
    }
}

/// The registry's parser: case-sensitive exact match against the recognized
/// names, where "GMT" is an alias for the UTC zone. No other normalization.
pub open spec fn spec_parse_zone(s: Seq<char>) -> Option<Timezone> {
    if s == "UTC"@ || s == "GMT"@ {
        Some(Timezone::UTC)
    } else if s == "CEST"@ {
        Some(Timezone::CEST)
    } else if s == "MYT"@ {
        Some(Timezone::MYT)
    } else if s == "AWST"@ {
        Some(Timezone::AWST)
    } else if s == "ACWST"@ {
        Some(Timezone::ACWST)
    } else if s == "JST"@ {
        Some(Timezone::JST)
    } else if s == "ACST"@ {
        Some(Timezone::ACST)
    } else if s == "AEST"@ {
        Some(Timezone::AEST)
    } else if s == "LHST"@ {
        Some(Timezone::LHST)
    } else if s == "EDT"@ {
        Some(Timezone::EDT)
    } else if s == "EST"@ {
        Some(Timezone::EST)
    } else if s == "PDT"@ {
        Some(Timezone::PDT)
    } else {
        None
    }
}

impl Timezone {
    /// The fixed UTC offset of this zone, in quarter-hour ticks (the offset
    /// in hours times four). Total: every zone has exactly one offset.
    pub fn offset(&self) -> (q: i32)
        ensures
            q == spec_offset_quarters(*self),
            -28 <= q <= 42,
    {
        match self {
            Timezone::PDT => -28,
            Timezone::EST => -20,
            Timezone::EDT => -16,
            Timezone::UTC => 0,
            Timezone::CEST => 8,
            Timezone::MYT => 32,
            Timezone::AWST => 32,
            Timezone::ACWST => 35,
            Timezone::JST => 36,
            Timezone::ACST => 38,
            Timezone::AEST => 40,
            Timezone::LHST => 42,
        }
    }

    /// The canonical uppercase name of this zone. Total; aliases such as
    /// "GMT" never come back out, only the canonical spelling.
    pub fn to_string(&self) -> (r: String)
        ensures
            r@ == spec_zone_name(*self),
    {
        match self {
            Timezone::PDT => "PDT".to_owned(),
            Timezone::EST => "EST".to_owned(),
            Timezone::EDT => "EDT".to_owned(),
            Timezone::UTC => "UTC".to_owned(),
            Timezone::CEST => "CEST".to_owned(),
            Timezone::MYT => "MYT".to_owned(),
            Timezone::AWST => "AWST".to_owned(),
            Timezone::ACWST => "ACWST".to_owned(),
            Timezone::JST => "JST".to_owned(),
            Timezone::ACST => "ACST".to_owned(),
            Timezone::AEST => "AEST".to_owned(),
            Timezone::LHST => "LHST".to_owned(),
        }
    }

    /// Parses a zone name: case-sensitive exact match against the recognized
    /// names and aliases, failing with the offending text otherwise.
    pub fn from_str(input: &str) -> (r: Result<Timezone, TimezoneNotSupportedErr>)
        ensures
            match r {
                Ok(z) => spec_parse_zone(input@) == Some(z),
                Err(e) => spec_parse_zone(input@) is None && e.timezone@ == input@,
            },
    {
        if str_eq(input, "UTC") || str_eq(input, "GMT") {
            Ok(Timezone::UTC)
        } else if str_eq(input, "CEST") {
            Ok(Timezone::CEST)
        } else if str_eq(input, "MYT") {
            Ok(Timezone::MYT)
        } else if str_eq(input, "AWST") {
            Ok(Timezone::AWST)
        } else if str_eq(input, "ACWST") {
            Ok(Timezone::ACWST)
        } else if str_eq(input, "JST") {
            Ok(Timezone::JST)
        } else if str_eq(input, "ACST") {
            Ok(Timezone::ACST)
        } else if str_eq(input, "AEST") {
            Ok(Timezone::AEST)
        } else if str_eq(input, "LHST") {
            Ok(Timezone::LHST)
        } else if str_eq(input, "EDT") {
            Ok(Timezone::EDT)
        } else if str_eq(input, "EST") {
            Ok(Timezone::EST)
        } else if str_eq(input, "PDT") {
            Ok(Timezone::PDT)
        } else {
            Err(TimezoneNotSupportedErr { timezone: input.to_owned() })
        }
    }
}

impl TimezoneNotSupportedErr {
    /// The user-facing description of the error, naming the rejected zone.
    pub fn message(&self) -> (r: String)
        ensures
            r@ == "Timezone "@ + self.timezone@ + " not supported!"@,
    {
        let mut s = "Timezone ".to_owned();
        s.append(self.timezone.as_str());
        s.append(" not supported!");
        proof {
            assert(s@ =~= "Timezone "@ + self.timezone@ + " not supported!"@);
        }
        s
    }
}

/// Checks whether a zone name is recognized; on failure the error text
/// reports the unsupported name.
pub fn valid_timezone(s: &str) -> (r: Result<(), String>)
    ensures
        r is Ok <==> spec_parse_zone(s@) is Some,
        r is Err ==> r->Err_0@ == "Timezone "@ + s@ + " not supported!"@,
{
    match Timezone::from_str(s) {
        Ok(_) => Ok(()),
        Err(e) => Err(e.message()),
    }
}

/// Character-by-character string equality, so that zone-name matching
/// carries an exact specification.
fn str_eq(a: &str, b: &str) -> (r: bool)
    ensures
        r == (a@ == b@),
{
    let alen = a.unicode_len();
    let blen = b.unicode_len();
    if alen != blen {
        return false;
    }
    let mut i: usize = 0;
    while i < alen
        invariant
            0 <= i <= alen,
            alen == a@.len(),
            alen == b@.len(),
            forall|j: int| 0 <= j < i ==> a@[j] == b@[j],
        decreases alen - i,
    {
        if a.get_char(i) != b.get_char(i) {
            return false;
        }
        i = i + 1;
    }
    proof {
        assert(a@ =~= b@);
    }
    true
}

} // verus!
