//! The user schema: one record of names, address and age per account.

use crate::bounded::{
    decode_128, decode_64, decode_text, encode_128, encode_64, fits, lemma_decode_encode,
    str128_as_slice, str128_bytes, str64_as_slice, str64_bytes, Str128, Str64,
};
use crate::store::{created, found, removed, RecordStore};
use std::hash::Hash;
use vstd::prelude::*;
use vstd::std_specs::hash::obeys_key_model;
use vstd::utf8::encode_utf8;

verus! {

/// A stored user record.
#[derive(Debug, PartialEq, Eq)]
pub struct UserDetails {
    pub fname: Str64,
    pub lname: Str64,
    pub address: Str128,
    pub age: u32,
}

/// A user record as the bytes and number it holds.
pub struct UserRecord {
    pub fname: Seq<u8>,
    pub lname: Seq<u8>,
    pub address: Seq<u8>,
    pub age: u32,
}

impl UserRecord {
    /// Every text field is within its capacity.
    pub open spec fn wf(self) -> bool {
        &&& self.fname.len() <= 64
        &&& self.lname.len() <= 64
        &&& self.address.len() <= 128
    }
}

impl View for UserDetails {
    type V = UserRecord;

    open spec fn view(&self) -> UserRecord {
        UserRecord {
            fname: str64_bytes(self.fname),
            lname: str64_bytes(self.lname),
            address: str128_bytes(self.address),
            age: self.age,
        }
    }
}

/// Why a user operation was refused.
#[derive(Clone, Copy, Debug, PartialEq, Eq)]
pub enum Error {
    /// The first name has more than 64 bytes.
    FirstNameTooLong,
    /// The last name has more than 64 bytes.
    LastNameTooLong,
    /// The address has more than 128 bytes.
    AddressTooLong,
    /// The account has no user record.
    NoUserDataFound,
    /// The account already has a user record.
    DuplicateUser,
}

/// What a successful user operation reports. The account it concerns is the
/// caller's to attach.
#[derive(Debug, PartialEq, Eq)]
pub enum Event {
    UserDataCreated,
    UserDataRemoved,
    UserDataUpdated,
    UserDataFetched { fname: String, lname: String, address: String, age: u32 },
}

/// An event as the texts and number it holds.
pub enum Notice {
    UserDataCreated,
    UserDataRemoved,
    UserDataUpdated,
    UserDataFetched { fname: Seq<char>, lname: Seq<char>, address: Seq<char>, age: u32 },
}

impl View for Event {
    type V = Notice;

    open spec fn view(&self) -> Notice {
        match *self {
            Event::UserDataCreated => Notice::UserDataCreated,
            Event::UserDataRemoved => Notice::UserDataRemoved,
            Event::UserDataUpdated => Notice::UserDataUpdated,
            Event::UserDataFetched { fname, lname, address, age } => Notice::UserDataFetched {
                fname: fname@,
                lname: lname@,
                address: address@,
                age,
            },
        }
    }
}

/// The answer of an operation, with its event by view.
pub open spec fn outcome(r: Result<Event, Error>) -> Result<Notice, Error> {
    match r {
        Ok(event) => Ok(event@),
        Err(e) => Err(e),
    }
}

/// The record that the given field values encode to, or the first text, in
/// the order given, that does not fit its field.
pub open spec fn encoded(fname: Seq<char>, lname: Seq<char>, address: Seq<char>, age: u32) -> Result<
    UserRecord,
    Error,
> {
    if !fits(fname, 64) {
        Err(Error::FirstNameTooLong)
    } else if !fits(lname, 64) {
        Err(Error::LastNameTooLong)
    } else if !fits(address, 128) {
        Err(Error::AddressTooLong)
    } else {
        Ok(
            UserRecord {
                fname: encode_utf8(fname),
                lname: encode_utf8(lname),
                address: encode_utf8(address),
                age,
            },
        )
    }
}

/// The outward form of a record: each text field decoded, the age as it is.
pub open spec fn projection(record: UserRecord) -> Notice {
    Notice::UserDataFetched {
        fname: decode_text(record.fname),
        lname: decode_text(record.lname),
        address: decode_text(record.address),
        age: record.age,
    }
}

/// What `create_user` does to the records and what it answers. The field
/// values are encoded first: a text that does not fit is refused as such
/// whether or not the account has a record.
pub open spec fn user_created<K>(
    users: Map<K, UserRecord>,
    who: K,
    fname: Seq<char>,
    lname: Seq<char>,
    address: Seq<char>,
    age: u32,
) -> (Map<K, UserRecord>, Result<Notice, Error>) {
    match encoded(fname, lname, address, age) {
        Err(e) => (users, Err(e)),
        Ok(record) => match created(users, who, record) {
            (after, Ok(_)) => (after, Ok(Notice::UserDataCreated)),
            (after, Err(_)) => (after, Err(Error::DuplicateUser)),
        },
    }
}

/// What `update_user` does to the records and what it answers.
pub open spec fn user_updated<K>(
    users: Map<K, UserRecord>,
    who: K,
    fname: Seq<char>,
    lname: Seq<char>,
    address: Seq<char>,
    age: u32,
) -> (Map<K, UserRecord>, Result<Notice, Error>) {
    match encoded(fname, lname, address, age) {
        Err(e) => (users, Err(e)),
        Ok(record) => (users.insert(who, record), Ok(Notice::UserDataUpdated)),
    }
}

/// The first text field of an encoded record, in the order of the fields,
/// that is beyond its capacity.
pub open spec fn overflow(record: UserRecord) -> Option<Error> {
    if record.fname.len() > 64 {
        Some(Error::FirstNameTooLong)
    } else if record.lname.len() > 64 {
        Some(Error::LastNameTooLong)
    } else if record.address.len() > 128 {
        Some(Error::AddressTooLong)
    } else {
        None
    }
}

/// What `restore` does to the records and what it answers.
pub open spec fn user_restored<K>(users: Map<K, UserRecord>, who: K, record: UserRecord) -> (
    Map<K, UserRecord>,
    Result<(), Error>,
) {
    match overflow(record) {
        Some(e) => (users, Err(e)),
        None => (users.insert(who, record), Ok(())),
    }
}

/// What `get_my_user_details` answers.
pub open spec fn user_fetched<K>(users: Map<K, UserRecord>, who: K) -> Result<Notice, Error> {
    match found(users, who) {
        Ok(record) => Ok(projection(record)),
        Err(_) => Err(Error::NoUserDataFound),
    }
}

/// What `remove_user` does to the records and what it answers.
pub open spec fn user_removed<K>(users: Map<K, UserRecord>, who: K) -> (
    Map<K, UserRecord>,
    Result<Notice, Error>,
) {
    match removed(users, who) {
        (after, Ok(_)) => (after, Ok(Notice::UserDataRemoved)),
        (after, Err(_)) => (after, Err(Error::NoUserDataFound)),
    }
}

/// Whether every stored record keeps its text fields within their capacity.
pub open spec fn users_wf<K>(users: Map<K, UserRecord>) -> bool {
    forall|who: K| #[trigger] users.contains_key(who) ==> users[who].wf()
}

/// A record that was just created is fetched with exactly the field values
/// it was created from.
pub proof fn lemma_fetch_after_create<K>(
    users: Map<K, UserRecord>,
    who: K,
    fname: Seq<char>,
    lname: Seq<char>,
    address: Seq<char>,
    age: u32,
)
    requires
        user_created(users, who, fname, lname, address, age).1 is Ok,
    ensures
        user_fetched(user_created(users, who, fname, lname, address, age).0, who) == Ok::<
            Notice,
            Error,
        >(Notice::UserDataFetched { fname, lname, address, age }),
{
    lemma_decode_encode(fname);
    lemma_decode_encode(lname);
    lemma_decode_encode(address);
}

/// A record that was just written over is fetched with exactly the field
/// values it was written from.
pub proof fn lemma_fetch_after_update<K>(
    users: Map<K, UserRecord>,
    who: K,
    fname: Seq<char>,
    lname: Seq<char>,
    address: Seq<char>,
    age: u32,
)
    requires
        user_updated(users, who, fname, lname, address, age).1 is Ok,
    ensures
        user_fetched(user_updated(users, who, fname, lname, address, age).0, who) == Ok::<
            Notice,
            Error,
        >(Notice::UserDataFetched { fname, lname, address, age }),
{
    lemma_decode_encode(fname);
    lemma_decode_encode(lname);
    lemma_decode_encode(address);
}

/// Creating the record of an account a second time, from field values that
/// fit, is refused as a duplicate and leaves the records as the first
/// create left them.
pub proof fn lemma_create_twice<K>(
    users: Map<K, UserRecord>,
    who: K,
    first: (Seq<char>, Seq<char>, Seq<char>, u32),
    second: (Seq<char>, Seq<char>, Seq<char>, u32),
)
    requires
        user_created(users, who, first.0, first.1, first.2, first.3).1 is Ok,
        encoded(second.0, second.1, second.2, second.3) is Ok,
    ensures
        ({
            let after = user_created(users, who, first.0, first.1, first.2, first.3).0;
            user_created(after, who, second.0, second.1, second.2, second.3) == (
                after,
                Err::<Notice, Error>(Error::DuplicateUser),
            )
        }),
{
}

/// A text that does not fit its field is refused by create and by update
/// in every state of the records, with the error of the first such text in
/// the order first name, last name, address, and nothing is written.
pub proof fn lemma_long_text_is_refused<K>(
    users: Map<K, UserRecord>,
    who: K,
    fname: Seq<char>,
    lname: Seq<char>,
    address: Seq<char>,
    age: u32,
)
    requires
        !(fits(fname, 64) && fits(lname, 64) && fits(address, 128)),
    ensures
        ({
            let refusal = if !fits(fname, 64) {
                Error::FirstNameTooLong
            } else if !fits(lname, 64) {
                Error::LastNameTooLong
            } else {
                Error::AddressTooLong
            };
            &&& user_created(users, who, fname, lname, address, age) == (
                users,
                Err::<Notice, Error>(refusal),
            )
            &&& user_updated(users, who, fname, lname, address, age) == (
                users,
                Err::<Notice, Error>(refusal),
            )
        }),
{
}

/// Fetching and removing the record of an account that has none are
/// refused, and leave the records as they were.
pub proof fn lemma_absent_user<K>(users: Map<K, UserRecord>, who: K)
    requires
        !users.contains_key(who),
    ensures
        user_fetched(users, who) == Err::<Notice, Error>(Error::NoUserDataFound),
        user_removed(users, who) == (users, Err::<Notice, Error>(Error::NoUserDataFound)),
{
}

/// A refused create or update leaves the records as they were.
pub proof fn lemma_refusal_changes_nothing<K>(
    users: Map<K, UserRecord>,
    who: K,
    fname: Seq<char>,
    lname: Seq<char>,
    address: Seq<char>,
    age: u32,
)
    ensures
        user_created(users, who, fname, lname, address, age).1 is Err ==> user_created(
            users,
            who,
            fname,
            lname,
            address,
            age,
        ).0 == users,
        user_updated(users, who, fname, lname, address, age).1 is Err ==> user_updated(
            users,
            who,
            fname,
            lname,
            address,
            age,
        ).0 == users,
{
}

/// After the record of an account was removed, fetching it is refused.
pub proof fn lemma_fetch_after_remove<K>(users: Map<K, UserRecord>, who: K)
    requires
        user_removed(users, who).1 is Ok,
    ensures
        user_fetched(user_removed(users, who).0, who) == Err::<Notice, Error>(
            Error::NoUserDataFound,
        ),
{
}

/// Every operation keeps the text fields of the stored records within their
/// capacity.
pub proof fn lemma_records_stay_wf<K>(
    users: Map<K, UserRecord>,
    who: K,
    fname: Seq<char>,
    lname: Seq<char>,
    address: Seq<char>,
    age: u32,
    record: UserRecord,
)
    requires
        users_wf(users),
    ensures
        users_wf(user_created(users, who, fname, lname, address, age).0),
        users_wf(user_updated(users, who, fname, lname, address, age).0),
        users_wf(user_restored(users, who, record).0),
        users_wf(user_removed(users, who).0),
{
}

/// The question that other schemas may ask of the user schema.
pub trait UserApi<K> {
    /// Whether the answers of this value can be relied on.
    spec fn wf(&self) -> bool;

    /// Whether `who` has a user record.
    spec fn registered(&self, who: K) -> bool;

    /// Tells whether `who` has a user record.
    fn user_exists(&self, who: &K) -> (exists: bool)
        requires
            self.wf(),
        ensures
            exists == self.registered(*who),
    ;
}

/// The user records of all accounts.
pub struct Pallet<K> {
    users: RecordStore<K, UserDetails>,
}

impl<K: Eq + Hash> View for Pallet<K> {
    type V = Map<K, UserRecord>;

    closed spec fn view(&self) -> Map<K, UserRecord> {
        self.users@
    }
}

/// Encodes the field values of a user record.
fn encode(fname: &str, lname: &str, address: &str, age: u32) -> (r: Result<UserDetails, Error>)
    ensures
        match r {
            Ok(details) => encoded(fname@, lname@, address@, age) == Ok::<UserRecord, Error>(details@),
            Err(e) => encoded(fname@, lname@, address@, age) == Err::<UserRecord, Error>(e),
        },
{
    let fname = match encode_64(fname) {
        Ok(field) => field,
        Err(_) => return Err(Error::FirstNameTooLong),
    };
    let lname = match encode_64(lname) {
        Ok(field) => field,
        Err(_) => return Err(Error::LastNameTooLong),
    };
    let address = match encode_128(address) {
        Ok(field) => field,
        Err(_) => return Err(Error::AddressTooLong),
    };
    Ok(UserDetails { fname, lname, address, age })
}

impl<K: Eq + Hash> Pallet<K> {
    /// Keys of type `K` can be found again, and every stored record keeps
    /// its text fields within their capacity.
    pub open spec fn wf(&self) -> bool {
        &&& obeys_key_model::<K>()
        &&& users_wf(self@)
    }

    /// A pallet without records.
    pub fn new() -> (pallet: Self)
        requires
            obeys_key_model::<K>(),
        ensures
            pallet.wf(),
            pallet@ == Map::<K, UserRecord>::empty(),
    {
        Pallet { users: RecordStore::new() }
    }

    /// Puts an encoded record under `who`, over whatever was there, as a
    /// host does that brings persisted records back. Refused when a text
    /// field is beyond its capacity.
    pub fn restore(&mut self, who: K, details: UserDetails) -> (r: Result<(), Error>)
        requires
            old(self).wf(),
        ensures
            final(self).wf(),
            (final(self)@, r) == user_restored(old(self)@, who, details@),
    {
        if str64_as_slice(&details.fname).len() > 64 {
            return Err(Error::FirstNameTooLong);
        }
        if str64_as_slice(&details.lname).len() > 64 {
            return Err(Error::LastNameTooLong);
        }
        if str128_as_slice(&details.address).len() > 128 {
            return Err(Error::AddressTooLong);
        }
        self.users.replace(who, details);
        Ok(())
    }

    /// The stored record of `who`, if there is one.
    pub fn record(&self, who: &K) -> (r: Option<&UserDetails>)
        requires
            self.wf(),
        ensures
            match r {
                Some(details) => self@.contains_key(*who) && details@ == self@[*who],
                None => !self@.contains_key(*who),
            },
    {
        match self.users.read(who) {
            Ok(details) => Some(details),
            Err(_) => None,
        }
    }

    /// Creates the record of `who` from the given field values. Refused when
    /// a text does not fit its field, and else when `who` already has a
    /// record.
    pub fn create_user(
        &mut self,
        who: K,
        fname: String,
        lname: String,
        address: String,
        age: u32,
    ) -> (r: Result<Event, Error>)
        requires
            old(self).wf(),
        ensures
            final(self).wf(),
            (final(self)@, outcome(r)) == user_created(
                old(self)@,
                who,
                fname@,
                lname@,
                address@,
                age,
            ),
    {
        let details = match encode(fname.as_str(), lname.as_str(), address.as_str(), age) {
            Ok(details) => details,
            Err(e) => return Err(e),
        };
        match self.users.create(who, details) {
            Ok(_) => Ok(Event::UserDataCreated),
            Err(_) => Err(Error::DuplicateUser),
        }
    }

    /// The record of `who` in its outward form.
    pub fn get_my_user_details(&self, who: &K) -> (r: Result<Event, Error>)
        requires
            self.wf(),
        ensures
            outcome(r) == user_fetched(self@, *who),
    {
        match self.users.read(who) {
            Ok(details) => Ok(
                Event::UserDataFetched {
                    fname: decode_64(&details.fname),
                    lname: decode_64(&details.lname),
                    address: decode_128(&details.address),
                    age: details.age,
                },
            ),
            Err(_) => Err(Error::NoUserDataFound),
        }
    }

    /// Writes a record made of the given field values over whatever `who`
    /// had. Refused when a text does not fit its field.
    pub fn update_user(
        &mut self,
        who: K,
        fname: String,
        lname: String,
        address: String,
        age: u32,
    ) -> (r: Result<Event, Error>)
        requires
            old(self).wf(),
        ensures
            final(self).wf(),
            (final(self)@, outcome(r)) == user_updated(
                old(self)@,
                who,
                fname@,
                lname@,
                address@,
                age,
            ),
    {
        let details = match encode(fname.as_str(), lname.as_str(), address.as_str(), age) {
            Ok(details) => details,
            Err(e) => return Err(e),
        };
        self.users.replace(who, details);
        Ok(Event::UserDataUpdated)
    }

    /// Deletes the record of `who`.
    pub fn remove_user(&mut self, who: &K) -> (r: Result<Event, Error>)
        requires
            old(self).wf(),
        ensures
            final(self).wf(),
            (final(self)@, outcome(r)) == user_removed(old(self)@, *who),
    {
        match self.users.remove(who) {
            Ok(_) => Ok(Event::UserDataRemoved),
            Err(_) => Err(Error::NoUserDataFound),
        }
    }
}

impl<K: Eq + Hash> UserApi<K> for Pallet<K> {
    open spec fn wf(&self) -> bool {
        Pallet::wf(self)
    }

    open spec fn registered(&self, who: K) -> bool {
        self@.contains_key(who)
    }

    fn user_exists(&self, who: &K) -> (exists: bool) {
        self.users.contains(who)
    }
}

} // verus!
