use crate::domain::models::text::same_text;
use vstd::prelude::*;

verus! {

/// The country of which a user is a citizen: one of those that the deadline
/// table names, or any other, by its name.
#[derive(Debug, PartialEq)]
pub enum Citizenship {
    Tajikistan,
    Uzbekistan,
    Kazakhstan,
    Kyrgyzstan,
    Armenia,
    Belarus,
    Ukraine,
    Other(String),
}

impl Clone for Citizenship {
    fn clone(&self) -> (r: Self)
        ensures
            r == *self,
    {
        match self {
            Citizenship::Tajikistan => Citizenship::Tajikistan,
            Citizenship::Uzbekistan => Citizenship::Uzbekistan,
            Citizenship::Kazakhstan => Citizenship::Kazakhstan,
            Citizenship::Kyrgyzstan => Citizenship::Kyrgyzstan,
            Citizenship::Armenia => Citizenship::Armenia,
            Citizenship::Belarus => Citizenship::Belarus,
            Citizenship::Ukraine => Citizenship::Ukraine,
            Citizenship::Other(s) => Citizenship::Other(s.clone()),
        }
    }
}

impl Citizenship {
    /// The name of the country, as it is shown and stored.
    pub open spec fn name(&self) -> Seq<char> {
        match self {
            Citizenship::Tajikistan => "Таджикистан"@,
            Citizenship::Uzbekistan => "Узбекистан"@,
            Citizenship::Kazakhstan => "Казахстан"@,
            Citizenship::Kyrgyzstan => "Кыргызстан"@,
            Citizenship::Armenia => "Армения"@,
            Citizenship::Belarus => "Беларусь"@,
            Citizenship::Ukraine => "Украина"@,
            Citizenship::Other(s) => s@,
        }
    }

    /// The country among the seven that are named that bears `name`, if one
    /// does.
    pub open spec fn listed(name: Seq<char>) -> Option<Citizenship> {
        if name == "Таджикистан"@ {
            Some(Citizenship::Tajikistan)
        } else if name == "Узбекистан"@ {
            Some(Citizenship::Uzbekistan)
        } else if name == "Казахстан"@ {
            Some(Citizenship::Kazakhstan)
        } else if name == "Кыргызстан"@ {
            Some(Citizenship::Kyrgyzstan)
        } else if name == "Армения"@ {
            Some(Citizenship::Armenia)
        } else if name == "Беларусь"@ {
            Some(Citizenship::Belarus)
        } else if name == "Украина"@ {
            Some(Citizenship::Ukraine)
        } else {
            None
        }
    }

    /// The name of the country.
    pub fn as_str(&self) -> (r: &str)
        ensures
            r@ == self.name(),
    {
        match self {
            Citizenship::Tajikistan => "Таджикистан",
            Citizenship::Uzbekistan => "Узбекистан",
            Citizenship::Kazakhstan => "Казахстан",
            Citizenship::Kyrgyzstan => "Кыргызстан",
            Citizenship::Armenia => "Армения",
            Citizenship::Belarus => "Беларусь",
            Citizenship::Ukraine => "Украина",
            Citizenship::Other(s) => s.as_str(),
        }
    }

    /// The country that bears the name `s`: one of the seven that are named,
    /// else `Other` with that name.
    pub fn from_name(s: &str) -> (r: Citizenship)
        ensures
            match Self::listed(s@) {
                Some(c) => r == c,
                None => r matches Citizenship::Other(name) && name@ == s@,
            },
            r.name() == s@,
    {
        if same_text(s, "Таджикистан") {
            Citizenship::Tajikistan
        } else if same_text(s, "Узбекистан") {
            Citizenship::Uzbekistan
        } else if same_text(s, "Казахстан") {
            Citizenship::Kazakhstan
        } else if same_text(s, "Кыргызстан") {
            Citizenship::Kyrgyzstan
        } else if same_text(s, "Армения") {
            Citizenship::Armenia
        } else if same_text(s, "Беларусь") {
            Citizenship::Belarus
        } else if same_text(s, "Украина") {
            Citizenship::Ukraine
        } else {
            Citizenship::Other(s.to_owned())
        }
    }
}

} // verus!
