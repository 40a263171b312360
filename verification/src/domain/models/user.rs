use crate::domain::error::Error;
use crate::domain::models::citizenship::Citizenship;
use crate::time::Date;
use vstd::prelude::*;
use vstd::string::StringExecFns;

verus! {

/// Whether `c` may stand in a name written in the Latin script: an ASCII
/// letter, a space or a hyphen.
pub open spec fn is_latin_name_char(c: char) -> bool {
    ('a' <= c && c <= 'z') || ('A' <= c && c <= 'Z') || c == ' ' || c == '-'
}

/// Whether `c` may stand in a name written in the Cyrillic script: a letter
/// of the Russian alphabet, a space or a hyphen.
pub open spec fn is_cyrillic_name_char(c: char) -> bool {
    ('а' <= c && c <= 'я') || ('А' <= c && c <= 'Я') || c == 'ё' || c == 'Ё' || c == ' ' || c
        == '-'
}

/// Whether every character of `s` may stand in a Latin-script name.
pub open spec fn is_latin_name(s: Seq<char>) -> bool {
    forall|i: int| 0 <= i < s.len() ==> is_latin_name_char(#[trigger] s[i])
}

/// Whether every character of `s` may stand in a Cyrillic-script name.
pub open spec fn is_cyrillic_name(s: Seq<char>) -> bool {
    forall|i: int| 0 <= i < s.len() ==> is_cyrillic_name_char(#[trigger] s[i])
}

fn latin_name_char(c: char) -> (r: bool)
    ensures
        r == is_latin_name_char(c),
{
    ('a' <= c && c <= 'z') || ('A' <= c && c <= 'Z') || c == ' ' || c == '-'
}

fn cyrillic_name_char(c: char) -> (r: bool)
    ensures
        r == is_cyrillic_name_char(c),
{
    ('а' <= c && c <= 'я') || ('А' <= c && c <= 'Я') || c == 'ё' || c == 'Ё' || c == ' ' || c
        == '-'
}

/// A name written in the Latin script.
#[derive(Debug, PartialEq)]
pub struct OnlyLatin(pub(crate) String);

impl Clone for OnlyLatin {
    fn clone(&self) -> (r: Self)
        ensures
            r == *self,
    {
        proof {
            use_type_invariant(self);
        }
        OnlyLatin(self.0.clone())
    }
}

impl View for OnlyLatin {
    type V = Seq<char>;

    open(crate) spec fn view(&self) -> Seq<char> {
        self.0@
    }
}

impl OnlyLatin {
    /// Every character is one that a Latin-script name may hold.
    #[verifier::type_invariant]
    pub open(crate) spec fn is_valid(&self) -> bool {
        is_latin_name(self.0@)
    }

    fn check(s: &str) -> (r: Result<(), Error>)
        ensures
            is_latin_name(s@) ==> r is Ok,
            !is_latin_name(s@) ==> (r matches Err(Error::InvalidValue(text)) && text@
                == "OnlyLatin: got "@ + s@),
    {
        let n: usize = s.unicode_len();
        let mut i: usize = 0;
        while i < n
            invariant
                n == s@.len(),
                i <= n,
                forall|j: int| 0 <= j < i ==> is_latin_name_char(#[trigger] s@[j]),
            decreases n - i,
        {
            if !latin_name_char(s.get_char(i)) {
                return Err(Error::InvalidValue(String::from_str("OnlyLatin: got ").concat(s)));
            }
            i += 1;
        }
        Ok(())
    }

    /// The name `s`.
    ///
    /// Fails with `InvalidValue` where `s` holds a character other than an
    /// ASCII letter, a space or a hyphen.
    pub fn new(s: &str) -> (r: Result<OnlyLatin, Error>)
        ensures
            is_latin_name(s@) ==> (r matches Ok(name) && name@ == s@ && name.is_valid()),
            !is_latin_name(s@) ==> (r matches Err(Error::InvalidValue(text)) && text@
                == "OnlyLatin: got "@ + s@),
    {
        match Self::check(s) {
            Ok(()) => {
                let text: String = s.to_owned();
                assert(is_latin_name(text@));
                Ok(OnlyLatin(text))
            },
            Err(e) => Err(e),
        }
    }

    /// The name as text.
    pub fn as_str(&self) -> (r: &str)
        ensures
            r@ == self@,
            is_latin_name(r@),
    {
        proof {
            use_type_invariant(self);
        }
        self.0.as_str()
    }
}

/// A name written in the Cyrillic script.
#[derive(Debug, PartialEq)]
pub struct OnlyCyrillic(pub(crate) String);

impl Clone for OnlyCyrillic {
    fn clone(&self) -> (r: Self)
        ensures
            r == *self,
    {
        proof {
            use_type_invariant(self);
        }
        OnlyCyrillic(self.0.clone())
    }
}

impl View for OnlyCyrillic {
    type V = Seq<char>;

    open(crate) spec fn view(&self) -> Seq<char> {
        self.0@
    }
}

impl OnlyCyrillic {
    /// Every character is one that a Cyrillic-script name may hold.
    #[verifier::type_invariant]
    pub open(crate) spec fn is_valid(&self) -> bool {
        is_cyrillic_name(self.0@)
    }

    fn check(s: &str) -> (r: Result<(), Error>)
        ensures
            is_cyrillic_name(s@) ==> r is Ok,
            !is_cyrillic_name(s@) ==> (r matches Err(Error::InvalidValue(text)) && text@
                == "OnlyCyrillic: got "@ + s@),
    {
        let n: usize = s.unicode_len();
        let mut i: usize = 0;
        while i < n
            invariant
                n == s@.len(),
                i <= n,
                forall|j: int| 0 <= j < i ==> is_cyrillic_name_char(#[trigger] s@[j]),
            decreases n - i,
        {
            if !cyrillic_name_char(s.get_char(i)) {
                return Err(Error::InvalidValue(String::from_str("OnlyCyrillic: got ").concat(s)));
            }
            i += 1;
        }
        Ok(())
    }

    /// The name `s`.
    ///
    /// Fails with `InvalidValue` where `s` holds a character other than a
    /// letter of the Russian alphabet, a space or a hyphen.
    pub fn new(s: &str) -> (r: Result<OnlyCyrillic, Error>)
        ensures
            is_cyrillic_name(s@) ==> (r matches Ok(name) && name@ == s@ && name.is_valid()),
            !is_cyrillic_name(s@) ==> (r matches Err(Error::InvalidValue(text)) && text@
                == "OnlyCyrillic: got "@ + s@),
    {
        match Self::check(s) {
            Ok(()) => {
                let text: String = s.to_owned();
                assert(is_cyrillic_name(text@));
                Ok(OnlyCyrillic(text))
            },
            Err(e) => Err(e),
        }
    }

    /// The name as text.
    pub fn as_str(&self) -> (r: &str)
        ensures
            r@ == self@,
            is_cyrillic_name(r@),
    {
        proof {
            use_type_invariant(self);
        }
        self.0.as_str()
    }
}

/// The numeric identity of a user.
#[derive(Debug, Clone, Copy, PartialEq, Eq, Structural, Hash)]
pub struct UserID(pub(crate) i64);

impl View for UserID {
    type V = int;

    open(crate) spec fn view(&self) -> int {
        self.0 as int
    }
}

impl UserID {
    /// The identity with the number `id`.
    pub fn new(id: i64) -> (r: UserID)
        ensures
            r@ == id,
    {
        UserID(id)
    }

    /// The number of the identity.
    pub fn as_i64(&self) -> (r: i64)
        ensures
            r == self@,
    {
        self.0
    }
}

/// The handle under which a user is known to the chat.
#[derive(Debug, PartialEq)]
pub struct Username(pub(crate) String);

impl Clone for Username {
    fn clone(&self) -> (r: Self)
        ensures
            r == *self,
    {
        Username(self.0.clone())
    }
}

impl View for Username {
    type V = Seq<char>;

    open(crate) spec fn view(&self) -> Seq<char> {
        self.0@
    }
}

impl Username {
    /// The handle `username`.
    pub fn new(username: &str) -> (r: Username)
        ensures
            r@ == username@,
    {
        Username(username.to_owned())
    }

    /// The handle as text.
    pub fn as_str(&self) -> (r: &str)
        ensures
            r@ == self@,
    {
        self.0.as_str()
    }
}

/// A registered user: who they are and what decides their booking deadline.
#[derive(Debug, PartialEq)]
pub struct User {
    pub(crate) id: UserID,
    pub(crate) username: Username,
    pub(crate) full_name_lat: OnlyLatin,
    pub(crate) full_name_cyr: OnlyCyrillic,
    pub(crate) citizenship: Citizenship,
    pub(crate) arrival_date: Date,
}

impl Clone for User {
    fn clone(&self) -> (r: Self)
        ensures
            r == *self,
    {
        User {
            id: self.id,
            username: self.username.clone(),
            full_name_lat: self.full_name_lat.clone(),
            full_name_cyr: self.full_name_cyr.clone(),
            citizenship: self.citizenship.clone(),
            arrival_date: self.arrival_date,
        }
    }
}

impl User {
    /// The identity of the user.
    pub open(crate) spec fn id_spec(&self) -> UserID {
        self.id
    }

    /// The handle of the user.
    pub open(crate) spec fn username_spec(&self) -> Username {
        self.username
    }

    /// The full name in the Latin script.
    pub open(crate) spec fn full_name_lat_spec(&self) -> OnlyLatin {
        self.full_name_lat
    }

    /// The full name in the Cyrillic script.
    pub open(crate) spec fn full_name_cyr_spec(&self) -> OnlyCyrillic {
        self.full_name_cyr
    }

    /// The citizenship of the user.
    pub open(crate) spec fn citizenship_spec(&self) -> Citizenship {
        self.citizenship
    }

    /// The day on which the user arrived.
    pub open(crate) spec fn arrival_date_spec(&self) -> Date {
        self.arrival_date
    }

    /// A user with these particulars.
    pub fn new(
        id: UserID,
        username: Username,
        full_name_lat: OnlyLatin,
        full_name_cyr: OnlyCyrillic,
        citizenship: Citizenship,
        arrival_date: Date,
    ) -> (r: User)
        ensures
            r.id_spec() == id,
            r.username_spec() == username,
            r.full_name_lat_spec() == full_name_lat,
            r.full_name_cyr_spec() == full_name_cyr,
            r.citizenship_spec() == citizenship,
            r.arrival_date_spec() == arrival_date,
    {
        User { id, username, full_name_lat, full_name_cyr, citizenship, arrival_date }
    }

    /// The identity of the user.
    pub fn id(&self) -> (r: UserID)
        ensures
            r == self.id_spec(),
    {
        self.id
    }

    /// The handle of the user.
    pub fn username(&self) -> (r: &Username)
        ensures
            *r == self.username_spec(),
    {
        &self.username
    }

    /// The full name in the Latin script.
    pub fn full_name_lat(&self) -> (r: &OnlyLatin)
        ensures
            *r == self.full_name_lat_spec(),
    {
        &self.full_name_lat
    }

    /// The full name in the Cyrillic script.
    pub fn full_name_cyr(&self) -> (r: &OnlyCyrillic)
        ensures
            *r == self.full_name_cyr_spec(),
    {
        &self.full_name_cyr
    }

    /// The citizenship of the user.
    pub fn citizenship(&self) -> (r: &Citizenship)
        ensures
            *r == self.citizenship_spec(),
    {
        &self.citizenship
    }

    /// The day on which the user arrived.
    pub fn arrival_date(&self) -> (r: &Date)
        ensures
            *r == self.arrival_date_spec(),
    {
        &self.arrival_date
    }

    /// Replaces the full name in the Latin script, and nothing else.
    pub fn set_full_name_lat(&mut self, full_name_lat: OnlyLatin)
        ensures
            final(self).full_name_lat_spec() == full_name_lat,
            final(self).id_spec() == old(self).id_spec(),
            final(self).username_spec() == old(self).username_spec(),
            final(self).full_name_cyr_spec() == old(self).full_name_cyr_spec(),
            final(self).citizenship_spec() == old(self).citizenship_spec(),
            final(self).arrival_date_spec() == old(self).arrival_date_spec(),
    {
        self.full_name_lat = full_name_lat;
    }

    /// Replaces the full name in the Cyrillic script, and nothing else.
    pub fn set_full_name_cyr(&mut self, full_name_cyr: OnlyCyrillic)
        ensures
            final(self).full_name_cyr_spec() == full_name_cyr,
            final(self).id_spec() == old(self).id_spec(),
            final(self).username_spec() == old(self).username_spec(),
            final(self).full_name_lat_spec() == old(self).full_name_lat_spec(),
            final(self).citizenship_spec() == old(self).citizenship_spec(),
            final(self).arrival_date_spec() == old(self).arrival_date_spec(),
    {
        self.full_name_cyr = full_name_cyr;
    }

    /// Replaces the citizenship, and nothing else.
    pub fn set_citizenship(&mut self, citizenship: Citizenship)
        ensures
            final(self).citizenship_spec() == citizenship,
            final(self).id_spec() == old(self).id_spec(),
            final(self).username_spec() == old(self).username_spec(),
            final(self).full_name_lat_spec() == old(self).full_name_lat_spec(),
            final(self).full_name_cyr_spec() == old(self).full_name_cyr_spec(),
            final(self).arrival_date_spec() == old(self).arrival_date_spec(),
    {
        self.citizenship = citizenship;
    }

    /// Replaces the day of arrival, and nothing else.
    pub fn set_arrival_date(&mut self, arrival_date: Date)
        ensures
            final(self).arrival_date_spec() == arrival_date,
            final(self).id_spec() == old(self).id_spec(),
            final(self).username_spec() == old(self).username_spec(),
            final(self).full_name_lat_spec() == old(self).full_name_lat_spec(),
            final(self).full_name_cyr_spec() == old(self).full_name_cyr_spec(),
            final(self).citizenship_spec() == old(self).citizenship_spec(),
    {
        self.arrival_date = arrival_date;
    }
}

} // verus!
