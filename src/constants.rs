//! The closed sets of query values that the upstream API understands.
use vstd::prelude::*;

verus! {

/// What the upstream API ranks a user's plays by.
#[derive(Clone, Copy, Debug, PartialEq, Eq, Structural)]
pub enum Method {
    Album,
    Artist,
    Track,
}

/// The time window of a ranking.
#[derive(Clone, Copy, Debug, PartialEq, Eq, Structural)]
pub enum Period {
    SevenDays,
    OneMonth,
    ThreeMonths,
    SixMonths,
    TwelveMonths,
    Overall,
}

/// Whether two strings hold the same characters.
pub fn same_text(a: &str, b: &str) -> (r: bool)
    ensures
        r == (a@ == b@),
{
    a.to_owned() == b.to_owned()
}

impl Method {
    /// The name of the method on the wire.
    pub open spec fn spec_name(self) -> Seq<char> {
        match self {
            Method::Album => "album"@,
            Method::Artist => "artist"@,
            Method::Track => "track"@,
        }
    }

    /// The name of the method on the wire.
    pub fn to_str(&self) -> (r: &'static str)
        ensures
            r@ == self.spec_name(),
    {
        match self {
            Method::Album => "album",
            Method::Artist => "artist",
            Method::Track => "track",
        }
    }

    /// The method with the wire name `s`, if there is one.
    pub fn parse(s: &str) -> (r: Option<Method>)
        ensures
            r matches Some(m) ==> m.spec_name() == s@,
            r is None ==> forall|m: Method| m.spec_name() != s@,
    {
        proof {
            reveal_strlit("album");
            reveal_strlit("artist");
            reveal_strlit("track");
        }
        if same_text(s, "album") {
            Some(Method::Album)
        } else if same_text(s, "artist") {
            Some(Method::Artist)
        } else if same_text(s, "track") {
            Some(Method::Track)
        } else {
            None
        }
    }
}

impl Period {
    /// The name of the period on the wire.
    pub open spec fn spec_name(self) -> Seq<char> {
        match self {
            Period::SevenDays => "7day"@,
            Period::OneMonth => "1month"@,
            Period::ThreeMonths => "3month"@,
            Period::SixMonths => "6month"@,
            Period::TwelveMonths => "12month"@,
            Period::Overall => "overall"@,
        }
    }

    /// The name of the period on the wire.
    pub fn to_str(&self) -> (r: &'static str)
        ensures
            r@ == self.spec_name(),
    {
        match self {
            Period::SevenDays => "7day",
            Period::OneMonth => "1month",
            Period::ThreeMonths => "3month",
            Period::SixMonths => "6month",
            Period::TwelveMonths => "12month",
            Period::Overall => "overall",
        }
    }

    /// The period with the wire name `s`, if there is one.
    pub fn parse(s: &str) -> (r: Option<Period>)
        ensures
            r matches Some(p) ==> p.spec_name() == s@,
            r is None ==> forall|p: Period| p.spec_name() != s@,
    {
        proof {
            reveal_strlit("7day");
            reveal_strlit("1month");
            reveal_strlit("3month");
            reveal_strlit("6month");
            reveal_strlit("12month");
            reveal_strlit("overall");
        }
        if same_text(s, "7day") {
            Some(Period::SevenDays)
        } else if same_text(s, "1month") {
            Some(Period::OneMonth)
        } else if same_text(s, "3month") {
            Some(Period::ThreeMonths)
        } else if same_text(s, "6month") {
            Some(Period::SixMonths)
        } else if same_text(s, "12month") {
            Some(Period::TwelveMonths)
        } else if same_text(s, "overall") {
            Some(Period::Overall)
        } else {
            None
        }
    }
}

} // verus!
