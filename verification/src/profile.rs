//! The profile schema: one record of personal details per account.
//!
//! A profile can be created only for an account that has a user record at
//! that moment. Nothing ties the two afterwards: removing the user record
//! leaves the profile where it is.

use crate::bounded::{
    decode_128, decode_64, decode_text, encode_128, encode_64, fits, lemma_decode_encode,
    str128_as_slice, str128_bytes, str64_as_slice, str64_bytes, Str128, Str64,
};
use crate::date::{
    date_syntax, date_syntax_bytes, is_valid_date, is_valid_date_bytes, lemma_date_bytes_decode,
    lemma_date_syntax_by_bytes,
};
use crate::store::{found, removed, MergeError, Mergeable, RecordStore};
use crate::user::{user_created, UserApi, UserRecord};
use std::hash::Hash;
use vstd::prelude::*;
use vstd::std_specs::hash::obeys_key_model;
use vstd::utf8::encode_utf8;

verus! {

#[derive(Clone, Copy, Debug, PartialEq, Eq)]
pub enum MaritalStatus {
    Single,
    Married,
    Divorced,
    Widowed,
}

#[derive(Clone, Copy, Debug, PartialEq, Eq)]
pub enum Gender {
    Male,
    Female,
    Other,
}

#[derive(Clone, Copy, Debug, PartialEq, Eq)]
pub enum BloodType {
    APos,
    ANeg,
    BPos,
    BNeg,
    OPos,
    ONeg,
    ABPos,
    ABNeg,
}

#[derive(Clone, Copy, Debug, PartialEq, Eq)]
pub enum Province {
    Western,
    Central,
    Southern,
    Northern,
    Eastern,
    NorthWestern,
    NorthCentral,
    Uva,
    Sabaragamuwa,
}

#[derive(Clone, Copy, Debug, PartialEq, Eq)]
pub enum District {
    Colombo,
    Gampaha,
}

/// A stored profile record.
#[derive(Debug, PartialEq, Eq)]
pub struct UserProfileData {
    pub f_name: Str64,
    pub m_name: Str64,
    pub l_name: Str64,
    pub marital_status: MaritalStatus,
    pub pf_pic_path: Str128,
    pub gender: Gender,
    pub blood_group: BloodType,
    pub nationality: Str64,
    pub religion: Str64,
    pub lit_lang: Str64,
    pub province: Province,
    pub district: District,
    pub city: Str64,
    pub division: Str64,
    /// 0 stands for "not given".
    pub postal_code: u32,
    /// In the form `YYYY-MM-DD`.
    pub birth_date: Str64,
}

/// A partial update of a profile: a field that is `None` stays as stored.
#[derive(Debug, PartialEq, Eq)]
pub struct UserProfileDataUpdate {
    pub f_name: Option<Str64>,
    pub m_name: Option<Str64>,
    pub l_name: Option<Str64>,
    pub marital_status: Option<MaritalStatus>,
    pub pf_pic_path: Option<Str128>,
    pub gender: Option<Gender>,
    pub blood_group: Option<BloodType>,
    pub nationality: Option<Str64>,
    pub religion: Option<Str64>,
    pub lit_lang: Option<Str64>,
    pub province: Option<Province>,
    pub district: Option<District>,
    pub city: Option<Str64>,
    pub division: Option<Str64>,
    pub postal_code: Option<u32>,
    pub birth_date: Option<Str64>,
}

/// A profile record as the bytes, categories and number it holds.
pub struct ProfileRecord {
    pub f_name: Seq<u8>,
    pub m_name: Seq<u8>,
    pub l_name: Seq<u8>,
    pub marital_status: MaritalStatus,
    pub pf_pic_path: Seq<u8>,
    pub gender: Gender,
    pub blood_group: BloodType,
    pub nationality: Seq<u8>,
    pub religion: Seq<u8>,
    pub lit_lang: Seq<u8>,
    pub province: Province,
    pub district: District,
    pub city: Seq<u8>,
    pub division: Seq<u8>,
    pub postal_code: u32,
    pub birth_date: Seq<u8>,
}

/// A partial update as the bytes, categories and number it holds.
pub struct ProfilePatch {
    pub f_name: Option<Seq<u8>>,
    pub m_name: Option<Seq<u8>>,
    pub l_name: Option<Seq<u8>>,
    pub marital_status: Option<MaritalStatus>,
    pub pf_pic_path: Option<Seq<u8>>,
    pub gender: Option<Gender>,
    pub blood_group: Option<BloodType>,
    pub nationality: Option<Seq<u8>>,
    pub religion: Option<Seq<u8>>,
    pub lit_lang: Option<Seq<u8>>,
    pub province: Option<Province>,
    pub district: Option<District>,
    pub city: Option<Seq<u8>>,
    pub division: Option<Seq<u8>>,
    pub postal_code: Option<u32>,
    pub birth_date: Option<Seq<u8>>,
}

/// The field values that a profile is created from.
pub struct ProfileForm {
    pub f_name: Seq<char>,
    pub m_name: Seq<char>,
    pub l_name: Seq<char>,
    pub marital_status: MaritalStatus,
    pub pf_pic_path: Seq<char>,
    pub gender: Gender,
    pub blood_group: BloodType,
    pub nationality: Seq<char>,
    pub religion: Seq<char>,
    pub lit_lang: Seq<char>,
    pub province: Province,
    pub district: District,
    pub city: Seq<char>,
    pub division: Seq<char>,
    pub postal_code: u32,
    pub birth_date: Seq<char>,
}

/// The bytes of an optional 64-byte field.
pub open spec fn bytes_of_64(field: Option<Str64>) -> Option<Seq<u8>> {
    match field {
        Some(field) => Some(str64_bytes(field)),
        None => None,
    }
}

/// The bytes of an optional 128-byte field.
pub open spec fn bytes_of_128(field: Option<Str128>) -> Option<Seq<u8>> {
    match field {
        Some(field) => Some(str128_bytes(field)),
        None => None,
    }
}

impl View for UserProfileData {
    type V = ProfileRecord;

    open spec fn view(&self) -> ProfileRecord {
        ProfileRecord {
            f_name: str64_bytes(self.f_name),
            m_name: str64_bytes(self.m_name),
            l_name: str64_bytes(self.l_name),
            marital_status: self.marital_status,
            pf_pic_path: str128_bytes(self.pf_pic_path),
            gender: self.gender,
            blood_group: self.blood_group,
            nationality: str64_bytes(self.nationality),
            religion: str64_bytes(self.religion),
            lit_lang: str64_bytes(self.lit_lang),
            province: self.province,
            district: self.district,
            city: str64_bytes(self.city),
            division: str64_bytes(self.division),
            postal_code: self.postal_code,
            birth_date: str64_bytes(self.birth_date),
        }
    }
}

impl View for UserProfileDataUpdate {
    type V = ProfilePatch;

    open spec fn view(&self) -> ProfilePatch {
        ProfilePatch {
            f_name: bytes_of_64(self.f_name),
            m_name: bytes_of_64(self.m_name),
            l_name: bytes_of_64(self.l_name),
            marital_status: self.marital_status,
            pf_pic_path: bytes_of_128(self.pf_pic_path),
            gender: self.gender,
            blood_group: self.blood_group,
            nationality: bytes_of_64(self.nationality),
            religion: bytes_of_64(self.religion),
            lit_lang: bytes_of_64(self.lit_lang),
            province: self.province,
            district: self.district,
            city: bytes_of_64(self.city),
            division: bytes_of_64(self.division),
            postal_code: self.postal_code,
            birth_date: bytes_of_64(self.birth_date),
        }
    }
}

impl ProfileRecord {
    /// Every text field is within its capacity, and the birth date has the
    /// shape of a date.
    pub open spec fn wf(self) -> bool {
        &&& self.f_name.len() <= 64
        &&& self.m_name.len() <= 64
        &&& self.l_name.len() <= 64
        &&& self.pf_pic_path.len() <= 128
        &&& self.nationality.len() <= 64
        &&& self.religion.len() <= 64
        &&& self.lit_lang.len() <= 64
        &&& self.city.len() <= 64
        &&& self.division.len() <= 64
        &&& date_syntax_bytes(self.birth_date)
    }
}

impl ProfilePatch {
    /// The update that changes nothing.
    pub open spec fn empty() -> ProfilePatch {
        ProfilePatch {
            f_name: None,
            m_name: None,
            l_name: None,
            marital_status: None,
            pf_pic_path: None,
            gender: None,
            blood_group: None,
            nationality: None,
            religion: None,
            lit_lang: None,
            province: None,
            district: None,
            city: None,
            division: None,
            postal_code: None,
            birth_date: None,
        }
    }
}

impl Default for UserProfileDataUpdate {
    fn default() -> (update: Self)
        ensures
            update@ == ProfilePatch::empty(),
    {
        UserProfileDataUpdate {
            f_name: None,
            m_name: None,
            l_name: None,
            marital_status: None,
            pf_pic_path: None,
            gender: None,
            blood_group: None,
            nationality: None,
            religion: None,
            lit_lang: None,
            province: None,
            district: None,
            city: None,
            division: None,
            postal_code: None,
            birth_date: None,
        }
    }
}

/// Why a profile operation was refused.
#[derive(Clone, Copy, Debug, PartialEq, Eq)]
pub enum Error {
    /// The account already has a profile.
    DuplicateProfile,
    /// The account has no profile.
    ProfileNotFound,
    /// The birth date does not have the form `YYYY-MM-DD`.
    InvalidBirthDate,
    /// A text is longer than the field that should hold it.
    StringTooLong,
    /// The account has no user record.
    UserNotRegistered,
}

/// What a successful profile operation reports. The account it concerns is
/// the caller's to attach.
#[derive(Debug, PartialEq, Eq)]
pub enum Event {
    ProfileCreated,
    ProfileUpdated,
    ProfileRemoved,
    ProfileDataFetched {
        f_name: String,
        m_name: String,
        l_name: String,
        marital_status: MaritalStatus,
        pf_pic_path: String,
        gender: Gender,
        blood_group: BloodType,
        nationality: String,
        religion: String,
        lit_lang: String,
        province: Province,
        district: District,
        city: String,
        division: String,
        postal_code: u32,
        birth_date: String,
    },
}

/// An event as the texts, categories and number it holds.
pub enum Notice {
    ProfileCreated,
    ProfileUpdated,
    ProfileRemoved,
    ProfileDataFetched { details: ProfileForm },
}

impl View for Event {
    type V = Notice;

    open spec fn view(&self) -> Notice {
        match *self {
            Event::ProfileCreated => Notice::ProfileCreated,
            Event::ProfileUpdated => Notice::ProfileUpdated,
            Event::ProfileRemoved => Notice::ProfileRemoved,
            Event::ProfileDataFetched {
                f_name,
                m_name,
                l_name,
                marital_status,
                pf_pic_path,
                gender,
                blood_group,
                nationality,
                religion,
                lit_lang,
                province,
                district,
                city,
                division,
                postal_code,
                birth_date,
            } => Notice::ProfileDataFetched {
                details: ProfileForm {
                    f_name: f_name@,
                    m_name: m_name@,
                    l_name: l_name@,
                    marital_status,
                    pf_pic_path: pf_pic_path@,
                    gender,
                    blood_group,
                    nationality: nationality@,
                    religion: religion@,
                    lit_lang: lit_lang@,
                    province,
                    district,
                    city: city@,
                    division: division@,
                    postal_code,
                    birth_date: birth_date@,
                },
            },
        }
    }
}

/// The answer of an operation, with its event by view.
pub open spec fn outcome(r: Result<Event, Error>) -> Result<Notice, Error> {
    match r {
        Ok(event) => Ok(event@),
        Err(e) => Err(e),
    }
}

/// Whether every text of the form but the birth date fits its field.
pub open spec fn texts_fit(form: ProfileForm) -> bool {
    &&& fits(form.f_name, 64)
    &&& fits(form.m_name, 64)
    &&& fits(form.l_name, 64)
    &&& fits(form.pf_pic_path, 128)
    &&& fits(form.nationality, 64)
    &&& fits(form.religion, 64)
    &&& fits(form.lit_lang, 64)
    &&& fits(form.city, 64)
    &&& fits(form.division, 64)
}

/// The record that a form encodes to. A text that does not fit is refused
/// before a birth date of the wrong shape.
pub open spec fn encoded(form: ProfileForm) -> Result<ProfileRecord, Error> {
    if !texts_fit(form) {
        Err(Error::StringTooLong)
    } else if !date_syntax(form.birth_date) {
        Err(Error::InvalidBirthDate)
    } else {
        Ok(
            ProfileRecord {
                f_name: encode_utf8(form.f_name),
                m_name: encode_utf8(form.m_name),
                l_name: encode_utf8(form.l_name),
                marital_status: form.marital_status,
                pf_pic_path: encode_utf8(form.pf_pic_path),
                gender: form.gender,
                blood_group: form.blood_group,
                nationality: encode_utf8(form.nationality),
                religion: encode_utf8(form.religion),
                lit_lang: encode_utf8(form.lit_lang),
                province: form.province,
                district: form.district,
                city: encode_utf8(form.city),
                division: encode_utf8(form.division),
                postal_code: form.postal_code,
                birth_date: encode_utf8(form.birth_date),
            },
        )
    }
}

/// The outward form of a record: each text field decoded, the categories
/// and the postal code as they are.
pub open spec fn projection(record: ProfileRecord) -> ProfileForm {
    ProfileForm {
        f_name: decode_text(record.f_name),
        m_name: decode_text(record.m_name),
        l_name: decode_text(record.l_name),
        marital_status: record.marital_status,
        pf_pic_path: decode_text(record.pf_pic_path),
        gender: record.gender,
        blood_group: record.blood_group,
        nationality: decode_text(record.nationality),
        religion: decode_text(record.religion),
        lit_lang: decode_text(record.lit_lang),
        province: record.province,
        district: record.district,
        city: decode_text(record.city),
        division: decode_text(record.division),
        postal_code: record.postal_code,
        birth_date: decode_text(record.birth_date),
    }
}

/// Whether an optional text is absent or within `capacity`.
pub open spec fn within(field: Option<Seq<u8>>, capacity: nat) -> bool {
    field matches Some(bytes) ==> bytes.len() <= capacity
}

/// Whether every present text of the update but the birth date is within
/// the capacity of its field.
pub open spec fn patch_fits(patch: ProfilePatch) -> bool {
    &&& within(patch.f_name, 64)
    &&& within(patch.m_name, 64)
    &&& within(patch.l_name, 64)
    &&& within(patch.pf_pic_path, 128)
    &&& within(patch.nationality, 64)
    &&& within(patch.religion, 64)
    &&& within(patch.lit_lang, 64)
    &&& within(patch.city, 64)
    &&& within(patch.division, 64)
}

/// The first fault of an update, if it has one. A text beyond its capacity
/// counts before a birth date of the wrong shape.
pub open spec fn patch_rejection(patch: ProfilePatch) -> Option<Error> {
    if !patch_fits(patch) {
        Some(Error::StringTooLong)
    } else if patch.birth_date matches Some(bytes) && !date_syntax_bytes(bytes) {
        Some(Error::InvalidBirthDate)
    } else {
        None
    }
}

/// The new value of one field: the update's, where it has one.
pub open spec fn pick<T>(update: Option<T>, stored: T) -> T {
    match update {
        Some(value) => value,
        None => stored,
    }
}

/// The record with every present field of the update written over it.
pub open spec fn patched(record: ProfileRecord, patch: ProfilePatch) -> ProfileRecord {
    ProfileRecord {
        f_name: pick(patch.f_name, record.f_name),
        m_name: pick(patch.m_name, record.m_name),
        l_name: pick(patch.l_name, record.l_name),
        marital_status: pick(patch.marital_status, record.marital_status),
        pf_pic_path: pick(patch.pf_pic_path, record.pf_pic_path),
        gender: pick(patch.gender, record.gender),
        blood_group: pick(patch.blood_group, record.blood_group),
        nationality: pick(patch.nationality, record.nationality),
        religion: pick(patch.religion, record.religion),
        lit_lang: pick(patch.lit_lang, record.lit_lang),
        province: pick(patch.province, record.province),
        district: pick(patch.district, record.district),
        city: pick(patch.city, record.city),
        division: pick(patch.division, record.division),
        postal_code: pick(patch.postal_code, record.postal_code),
        birth_date: pick(patch.birth_date, record.birth_date),
    }
}

/// What `create_profile` does to the records and what it answers, given
/// whether the account has a user record.
pub open spec fn profile_created<K>(
    profiles: Map<K, ProfileRecord>,
    registered: bool,
    who: K,
    form: ProfileForm,
) -> (Map<K, ProfileRecord>, Result<Notice, Error>) {
    if !registered {
        (profiles, Err(Error::UserNotRegistered))
    } else if profiles.contains_key(who) {
        (profiles, Err(Error::DuplicateProfile))
    } else {
        match encoded(form) {
            Err(e) => (profiles, Err(e)),
            Ok(record) => (profiles.insert(who, record), Ok(Notice::ProfileCreated)),
        }
    }
}

/// The first fault of an encoded record, if it has one. A text beyond its
/// capacity counts before a birth date of the wrong shape.
pub open spec fn fault(record: ProfileRecord) -> Option<Error> {
    if !(record.f_name.len() <= 64 && record.m_name.len() <= 64 && record.l_name.len() <= 64
        && record.pf_pic_path.len() <= 128 && record.nationality.len() <= 64
        && record.religion.len() <= 64 && record.lit_lang.len() <= 64 && record.city.len() <= 64
        && record.division.len() <= 64) {
        Some(Error::StringTooLong)
    } else if !date_syntax_bytes(record.birth_date) {
        Some(Error::InvalidBirthDate)
    } else {
        None
    }
}

/// What `restore` does to the records and what it answers.
pub open spec fn profile_restored<K>(
    profiles: Map<K, ProfileRecord>,
    who: K,
    record: ProfileRecord,
) -> (Map<K, ProfileRecord>, Result<(), Error>) {
    match fault(record) {
        Some(e) => (profiles, Err(e)),
        None => (profiles.insert(who, record), Ok(())),
    }
}

/// What `update_profile` does to the records and what it answers.
pub open spec fn profile_updated<K>(
    profiles: Map<K, ProfileRecord>,
    who: K,
    patch: ProfilePatch,
) -> (Map<K, ProfileRecord>, Result<Notice, Error>) {
    if !profiles.contains_key(who) {
        (profiles, Err(Error::ProfileNotFound))
    } else {
        match patch_rejection(patch) {
            Some(e) => (profiles, Err(e)),
            None => (
                profiles.insert(who, patched(profiles[who], patch)),
                Ok(Notice::ProfileUpdated),
            ),
        }
    }
}

/// What `remove_profile` does to the records and what it answers.
pub open spec fn profile_removed<K>(profiles: Map<K, ProfileRecord>, who: K) -> (
    Map<K, ProfileRecord>,
    Result<Notice, Error>,
) {
    match removed(profiles, who) {
        (after, Ok(_)) => (after, Ok(Notice::ProfileRemoved)),
        (after, Err(_)) => (after, Err(Error::ProfileNotFound)),
    }
}

/// What `get_my_profile_details` answers.
pub open spec fn profile_fetched<K>(profiles: Map<K, ProfileRecord>, who: K) -> Result<
    Notice,
    Error,
> {
    match found(profiles, who) {
        Ok(record) => Ok(Notice::ProfileDataFetched { details: projection(record) }),
        Err(_) => Err(Error::ProfileNotFound),
    }
}

/// Whether every stored record keeps its text fields within their capacity
/// and holds a birth date of the shape of a date.
pub open spec fn profiles_wf<K>(profiles: Map<K, ProfileRecord>) -> bool {
    forall|who: K| #[trigger] profiles.contains_key(who) ==> profiles[who].wf()
}

/// A profile that was just created is fetched with exactly the field
/// values it was created from.
pub proof fn lemma_fetch_after_create<K>(
    profiles: Map<K, ProfileRecord>,
    registered: bool,
    who: K,
    form: ProfileForm,
)
    requires
        profile_created(profiles, registered, who, form).1 is Ok,
    ensures
        profile_fetched(profile_created(profiles, registered, who, form).0, who) == Ok::<
            Notice,
            Error,
        >(Notice::ProfileDataFetched { details: form }),
{
    lemma_decode_encode(form.f_name);
    lemma_decode_encode(form.m_name);
    lemma_decode_encode(form.l_name);
    lemma_decode_encode(form.pf_pic_path);
    lemma_decode_encode(form.nationality);
    lemma_decode_encode(form.religion);
    lemma_decode_encode(form.lit_lang);
    lemma_decode_encode(form.city);
    lemma_decode_encode(form.division);
    lemma_decode_encode(form.birth_date);
}

/// Creating the profile of an account a second time, while the account
/// still has its user record, is refused as a duplicate, whatever the field
/// values, and leaves the records as the first create left them.
pub proof fn lemma_create_twice<K>(
    profiles: Map<K, ProfileRecord>,
    who: K,
    first: ProfileForm,
    second: ProfileForm,
)
    requires
        profile_created(profiles, true, who, first).1 is Ok,
    ensures
        ({
            let after = profile_created(profiles, true, who, first).0;
            profile_created(after, true, who, second) == (
                after,
                Err::<Notice, Error>(Error::DuplicateProfile),
            )
        }),
{
}

/// Updating, removing and fetching the profile of an account that has none
/// are refused, and leave the records as they were.
pub proof fn lemma_absent_profile<K>(profiles: Map<K, ProfileRecord>, who: K, patch: ProfilePatch)
    requires
        !profiles.contains_key(who),
    ensures
        profile_updated(profiles, who, patch) == (
            profiles,
            Err::<Notice, Error>(Error::ProfileNotFound),
        ),
        profile_removed(profiles, who) == (profiles, Err::<Notice, Error>(Error::ProfileNotFound)),
        profile_fetched(profiles, who) == Err::<Notice, Error>(Error::ProfileNotFound),
{
}

/// An update without any field succeeds on every account that has a
/// profile, and leaves the records as they were.
pub proof fn lemma_empty_update<K>(profiles: Map<K, ProfileRecord>, who: K)
    requires
        profiles.contains_key(who),
    ensures
        profile_updated(profiles, who, ProfilePatch::empty()) == (
            profiles,
            Ok::<Notice, Error>(Notice::ProfileUpdated),
        ),
{
    assert(patched(profiles[who], ProfilePatch::empty()) == profiles[who]);
    assert(profiles.insert(who, profiles[who]) =~= profiles);
}

/// A refused create or update leaves the records as they were.
pub proof fn lemma_refusal_changes_nothing<K>(
    profiles: Map<K, ProfileRecord>,
    registered: bool,
    who: K,
    form: ProfileForm,
    patch: ProfilePatch,
)
    ensures
        profile_created(profiles, registered, who, form).1 is Err ==> profile_created(
            profiles,
            registered,
            who,
            form,
        ).0 == profiles,
        profile_updated(profiles, who, patch).1 is Err ==> profile_updated(profiles, who, patch).0
            == profiles,
        !texts_fit(form) || !date_syntax(form.birth_date) ==> profile_created(
            profiles,
            registered,
            who,
            form,
        ).1 is Err,
        !patch_fits(patch) || (patch.birth_date matches Some(bytes) && !date_syntax_bytes(bytes))
            ==> profile_updated(profiles, who, patch).1 is Err,
{
}

/// An accepted update writes exactly its present fields: a field that it
/// leaves out is fetched as before, one that it holds as the update has it.
pub proof fn lemma_update_writes_present_fields<K>(
    profiles: Map<K, ProfileRecord>,
    who: K,
    patch: ProfilePatch,
)
    requires
        profile_updated(profiles, who, patch).1 is Ok,
    ensures
        profile_updated(profiles, who, patch).0.dom() == profiles.dom(),
        forall|other: K|
            other != who && #[trigger] profiles.contains_key(other) ==> profile_updated(
                profiles,
                who,
                patch,
            ).0[other] == profiles[other],
        profile_updated(profiles, who, patch).0[who] == patched(profiles[who], patch),
{
    assert(profiles.insert(who, patched(profiles[who], patch)).dom() =~= profiles.dom());
}

/// An update whose present texts are within their capacity, on an account
/// that has a profile, depends on nothing but its birth date: with a birth
/// date of the wrong shape it is refused as such and writes nothing;
/// otherwise it is accepted, whether or not the account still has a user
/// record, and every field takes the update's value or keeps the stored
/// one.
pub proof fn lemma_update_within_capacity<K>(
    profiles: Map<K, ProfileRecord>,
    who: K,
    patch: ProfilePatch,
)
    requires
        profiles.contains_key(who),
        patch_fits(patch),
    ensures
        (patch.birth_date matches Some(bytes) && !date_syntax_bytes(bytes)) ==> profile_updated(
            profiles,
            who,
            patch,
        ) == (profiles, Err::<Notice, Error>(Error::InvalidBirthDate)),
        !(patch.birth_date matches Some(bytes) && !date_syntax_bytes(bytes)) ==> profile_updated(
            profiles,
            who,
            patch,
        ) == (
            profiles.insert(who, patched(profiles[who], patch)),
            Ok::<Notice, Error>(Notice::ProfileUpdated),
        ),
{
}

/// Creating a profile is refused for an account without a user record and
/// leaves the records as they were; once the user record has been created,
/// a profile with valid field values is accepted.
pub proof fn lemma_profile_needs_user<K>(
    users: Map<K, UserRecord>,
    profiles: Map<K, ProfileRecord>,
    who: K,
    user: (Seq<char>, Seq<char>, Seq<char>, u32),
    form: ProfileForm,
)
    requires
        !users.contains_key(who),
        !profiles.contains_key(who),
        encoded(form) is Ok,
    ensures
        profile_created(profiles, users.contains_key(who), who, form) == (
            profiles,
            Err::<Notice, Error>(Error::UserNotRegistered),
        ),
        user_created(users, who, user.0, user.1, user.2, user.3).1 is Ok ==> profile_created(
            profiles,
            user_created(users, who, user.0, user.1, user.2, user.3).0.contains_key(who),
            who,
            form,
        ).1 is Ok,
{
}

/// Every operation keeps the text fields of the stored records within their
/// capacity and their birth dates in the shape of a date.
pub proof fn lemma_records_stay_wf<K>(
    profiles: Map<K, ProfileRecord>,
    registered: bool,
    who: K,
    form: ProfileForm,
    patch: ProfilePatch,
    record: ProfileRecord,
)
    requires
        profiles_wf(profiles),
    ensures
        profiles_wf(profile_created(profiles, registered, who, form).0),
        profiles_wf(profile_updated(profiles, who, patch).0),
        profiles_wf(profile_restored(profiles, who, record).0),
        profiles_wf(profile_removed(profiles, who).0),
{
    lemma_date_syntax_by_bytes(form.birth_date);
}

/// The birth date of a stored profile is fetched as a text of the shape
/// of a date.
pub proof fn lemma_fetched_birth_date<K>(profiles: Map<K, ProfileRecord>, who: K)
    requires
        profiles_wf(profiles),
        profiles.contains_key(who),
    ensures
        date_syntax(projection(profiles[who]).birth_date),
{
    lemma_date_bytes_decode(profiles[who].birth_date);
}

/// Whether an optional 64-byte field is absent or within its capacity.
fn within_64(field: &Option<Str64>) -> (ok: bool)
    ensures
        ok == within(bytes_of_64(*field), 64),
{
    match field {
        Some(field) => str64_as_slice(field).len() <= 64,
        None => true,
    }
}

/// Whether an optional 128-byte field is absent or within its capacity.
fn within_128(field: &Option<Str128>) -> (ok: bool)
    ensures
        ok == within(bytes_of_128(*field), 128),
{
    match field {
        Some(field) => str128_as_slice(field).len() <= 128,
        None => true,
    }
}

/// The new value of a 64-byte field: the update's, where it has one.
fn pick_64(update: Option<Str64>, stored: Str64) -> (value: Str64)
    ensures
        str64_bytes(value) == pick(bytes_of_64(update), str64_bytes(stored)),
{
    match update {
        Some(value) => value,
        None => stored,
    }
}

/// The new value of a 128-byte field: the update's, where it has one.
fn pick_128(update: Option<Str128>, stored: Str128) -> (value: Str128)
    ensures
        str128_bytes(value) == pick(bytes_of_128(update), str128_bytes(stored)),
{
    match update {
        Some(value) => value,
        None => stored,
    }
}

/// The new value of a category or a number: the update's, where it has one.
fn pick_plain<T>(update: Option<T>, stored: T) -> (value: T)
    ensures
        value == pick(update, stored),
{
    match update {
        Some(value) => value,
        None => stored,
    }
}

impl Mergeable for UserProfileData {
    type Partial = UserProfileDataUpdate;

    type Rejection = Error;

    open spec fn rejection(partial: ProfilePatch) -> Option<Error> {
        patch_rejection(partial)
    }

    open spec fn merged(record: ProfileRecord, partial: ProfilePatch) -> ProfileRecord {
        patched(record, partial)
    }

    fn check(partial: &UserProfileDataUpdate) -> (r: Result<(), Error>) {
        if !(within_64(&partial.f_name) && within_64(&partial.m_name) && within_64(&partial.l_name)
            && within_128(&partial.pf_pic_path) && within_64(&partial.nationality) && within_64(
            &partial.religion,
        ) && within_64(&partial.lit_lang) && within_64(&partial.city) && within_64(
            &partial.division,
        )) {
            return Err(Error::StringTooLong);
        }
        match &partial.birth_date {
            Some(date) => {
                if is_valid_date_bytes(str64_as_slice(date)) {
                    Ok(())
                } else {
                    Err(Error::InvalidBirthDate)
                }
            },
            None => Ok(()),
        }
    }

    fn merge(self, partial: UserProfileDataUpdate) -> (record: UserProfileData) {
        UserProfileData {
            f_name: pick_64(partial.f_name, self.f_name),
            m_name: pick_64(partial.m_name, self.m_name),
            l_name: pick_64(partial.l_name, self.l_name),
            marital_status: pick_plain(partial.marital_status, self.marital_status),
            pf_pic_path: pick_128(partial.pf_pic_path, self.pf_pic_path),
            gender: pick_plain(partial.gender, self.gender),
            blood_group: pick_plain(partial.blood_group, self.blood_group),
            nationality: pick_64(partial.nationality, self.nationality),
            religion: pick_64(partial.religion, self.religion),
            lit_lang: pick_64(partial.lit_lang, self.lit_lang),
            province: pick_plain(partial.province, self.province),
            district: pick_plain(partial.district, self.district),
            city: pick_64(partial.city, self.city),
            division: pick_64(partial.division, self.division),
            postal_code: pick_plain(partial.postal_code, self.postal_code),
            birth_date: pick_64(partial.birth_date, self.birth_date),
        }
    }
}

/// The profile records of all accounts.
pub struct Pallet<K> {
    profiles: RecordStore<K, UserProfileData>,
}

impl<K: Eq + Hash> View for Pallet<K> {
    type V = Map<K, ProfileRecord>;

    closed spec fn view(&self) -> Map<K, ProfileRecord> {
        self.profiles@
    }
}

impl<K: Eq + Hash> Pallet<K> {
    /// Keys of type `K` can be found again, every stored record keeps its
    /// text fields within their capacity, and every stored birth date has
    /// the shape of a date.
    pub open spec fn wf(&self) -> bool {
        &&& obeys_key_model::<K>()
        &&& profiles_wf(self@)
    }

    /// A pallet without records.
    pub fn new() -> (pallet: Self)
        requires
            obeys_key_model::<K>(),
        ensures
            pallet.wf(),
            pallet@ == Map::<K, ProfileRecord>::empty(),
    {
        Pallet { profiles: RecordStore::new() }
    }

    /// Puts an encoded record under `who`, over whatever was there, as a
    /// host does that brings persisted records back. Refused when a text
    /// field is beyond its capacity or the birth date does not have the
    /// shape of a date.
    pub fn restore(&mut self, who: K, data: UserProfileData) -> (r: Result<(), Error>)
        requires
            old(self).wf(),
        ensures
            final(self).wf(),
            (final(self)@, r) == profile_restored(old(self)@, who, data@),
    {
        if !(str64_as_slice(&data.f_name).len() <= 64 && str64_as_slice(&data.m_name).len() <= 64
            && str64_as_slice(&data.l_name).len() <= 64 && str128_as_slice(
            &data.pf_pic_path,
        ).len() <= 128 && str64_as_slice(&data.nationality).len() <= 64 && str64_as_slice(
            &data.religion,
        ).len() <= 64 && str64_as_slice(&data.lit_lang).len() <= 64 && str64_as_slice(
            &data.city,
        ).len() <= 64 && str64_as_slice(&data.division).len() <= 64) {
            return Err(Error::StringTooLong);
        }
        if !is_valid_date_bytes(str64_as_slice(&data.birth_date)) {
            return Err(Error::InvalidBirthDate);
        }
        self.profiles.replace(who, data);
        Ok(())
    }

    /// The stored profile of `who`, if there is one.
    pub fn record(&self, who: &K) -> (r: Option<&UserProfileData>)
        requires
            self.wf(),
        ensures
            match r {
                Some(data) => self@.contains_key(*who) && data@ == self@[*who],
                None => !self@.contains_key(*who),
            },
    {
        match self.profiles.read(who) {
            Ok(data) => Some(data),
            Err(_) => None,
        }
    }

    /// Creates the profile of `who` from the given field values, after
    /// asking `users` whether `who` has a user record. Refused, in this
    /// order, when `who` has no user record, when `who` already has a
    /// profile, when a text does not fit its field, and when the birth date
    /// does not have the shape of a date.
    pub fn create_profile<U: UserApi<K>>(
        &mut self,
        users: &U,
        who: K,
        f_name: String,
        m_name: String,
        l_name: String,
        marital_status: MaritalStatus,
        pf_pic_path: String,
        gender: Gender,
        blood_group: BloodType,
        nationality: String,
        religion: String,
        lit_lang: String,
        province: Province,
        district: District,
        city: String,
        division: String,
        postal_code: u32,
        birth_date: String,
    ) -> (r: Result<Event, Error>)
        requires
            old(self).wf(),
            users.wf(),
        ensures
            final(self).wf(),
            (final(self)@, outcome(r)) == profile_created(
                old(self)@,
                users.registered(who),
                who,
                (ProfileForm {
                    f_name: f_name@,
                    m_name: m_name@,
                    l_name: l_name@,
                    marital_status,
                    pf_pic_path: pf_pic_path@,
                    gender,
                    blood_group,
                    nationality: nationality@,
                    religion: religion@,
                    lit_lang: lit_lang@,
                    province,
                    district,
                    city: city@,
                    division: division@,
                    postal_code,
                    birth_date: birth_date@,
                }),
            ),
    {
        let registered = users.user_exists(&who);
        self.create_profile_given(
            registered,
            who,
            f_name,
            m_name,
            l_name,
            marital_status,
            pf_pic_path,
            gender,
            blood_group,
            nationality,
            religion,
            lit_lang,
            province,
            district,
            city,
            division,
            postal_code,
            birth_date,
        )
    }

    /// Creates the profile of `who` from the given field values, for a
    /// caller that has asked the user schema already and passes its answer
    /// as `registered`. Refused, in this order, when `who` has no user
    /// record, when `who` already has a profile, when a text does not fit
    /// its field, and when the birth date does not have the shape of a date.
    pub fn create_profile_given(
        &mut self,
        registered: bool,
        who: K,
        f_name: String,
        m_name: String,
        l_name: String,
        marital_status: MaritalStatus,
        pf_pic_path: String,
        gender: Gender,
        blood_group: BloodType,
        nationality: String,
        religion: String,
        lit_lang: String,
        province: Province,
        district: District,
        city: String,
        division: String,
        postal_code: u32,
        birth_date: String,
    ) -> (r: Result<Event, Error>)
        requires
            old(self).wf(),
        ensures
            final(self).wf(),
            (final(self)@, outcome(r)) == profile_created(
                old(self)@,
                registered,
                who,
                (ProfileForm {
                    f_name: f_name@,
                    m_name: m_name@,
                    l_name: l_name@,
                    marital_status,
                    pf_pic_path: pf_pic_path@,
                    gender,
                    blood_group,
                    nationality: nationality@,
                    religion: religion@,
                    lit_lang: lit_lang@,
                    province,
                    district,
                    city: city@,
                    division: division@,
                    postal_code,
                    birth_date: birth_date@,
                }),
            ),
    {
        if !registered {
            return Err(Error::UserNotRegistered);
        }
        if self.profiles.contains(&who) {
            return Err(Error::DuplicateProfile);
        }
        let f_name = match encode_64(f_name.as_str()) {
            Ok(field) => field,
            Err(_) => return Err(Error::StringTooLong),
        };
        let m_name = match encode_64(m_name.as_str()) {
            Ok(field) => field,
            Err(_) => return Err(Error::StringTooLong),
        };
        let l_name = match encode_64(l_name.as_str()) {
            Ok(field) => field,
            Err(_) => return Err(Error::StringTooLong),
        };
        let pf_pic_path = match encode_128(pf_pic_path.as_str()) {
            Ok(field) => field,
            Err(_) => return Err(Error::StringTooLong),
        };
        let nationality = match encode_64(nationality.as_str()) {
            Ok(field) => field,
            Err(_) => return Err(Error::StringTooLong),
        };
        let religion = match encode_64(religion.as_str()) {
            Ok(field) => field,
            Err(_) => return Err(Error::StringTooLong),
        };
        let lit_lang = match encode_64(lit_lang.as_str()) {
            Ok(field) => field,
            Err(_) => return Err(Error::StringTooLong),
        };
        let city = match encode_64(city.as_str()) {
            Ok(field) => field,
            Err(_) => return Err(Error::StringTooLong),
        };
        let division = match encode_64(division.as_str()) {
            Ok(field) => field,
            Err(_) => return Err(Error::StringTooLong),
        };
        if !is_valid_date(birth_date.as_str()) {
            return Err(Error::InvalidBirthDate);
        }
        proof {
            lemma_date_syntax_by_bytes(birth_date@);
        }
        let birth_date = match encode_64(birth_date.as_str()) {
            Ok(field) => field,
            Err(_) => return Err(Error::StringTooLong),
        };
        let data = UserProfileData {
            f_name,
            m_name,
            l_name,
            marital_status,
            pf_pic_path,
            gender,
            blood_group,
            nationality,
            religion,
            lit_lang,
            province,
            district,
            city,
            division,
            postal_code,
            birth_date,
        };
        self.profiles.replace(who, data);
        Ok(Event::ProfileCreated)
    }

    /// Writes the present fields of `updates` over the profile of `who`.
    /// Either every present field is written or none is.
    pub fn update_profile(&mut self, who: K, updates: UserProfileDataUpdate) -> (r: Result<
        Event,
        Error,
    >)
        requires
            old(self).wf(),
        ensures
            final(self).wf(),
            (final(self)@, outcome(r)) == profile_updated(old(self)@, who, updates@),
    {
        match self.profiles.merge(who, updates) {
            Ok(_) => Ok(Event::ProfileUpdated),
            Err(MergeError::RecordNotFound) => Err(Error::ProfileNotFound),
            Err(MergeError::Rejected(e)) => Err(e),
        }
    }

    /// Deletes the profile of `who`.
    pub fn remove_profile(&mut self, who: &K) -> (r: Result<Event, Error>)
        requires
            old(self).wf(),
        ensures
            final(self).wf(),
            (final(self)@, outcome(r)) == profile_removed(old(self)@, *who),
    {
        match self.profiles.remove(who) {
            Ok(_) => Ok(Event::ProfileRemoved),
            Err(_) => Err(Error::ProfileNotFound),
        }
    }

    /// The profile of `who` in its outward form.
    pub fn get_my_profile_details(&self, who: &K) -> (r: Result<Event, Error>)
        requires
            self.wf(),
        ensures
            outcome(r) == profile_fetched(self@, *who),
    {
        match self.profiles.read(who) {
            Ok(p) => Ok(
                Event::ProfileDataFetched {
                    f_name: decode_64(&p.f_name),
                    m_name: decode_64(&p.m_name),
                    l_name: decode_64(&p.l_name),
                    marital_status: p.marital_status,
                    pf_pic_path: decode_128(&p.pf_pic_path),
                    gender: p.gender,
                    blood_group: p.blood_group,
                    nationality: decode_64(&p.nationality),
                    religion: decode_64(&p.religion),
                    lit_lang: decode_64(&p.lit_lang),
                    province: p.province,
                    district: p.district,
                    city: decode_64(&p.city),
                    division: decode_64(&p.division),
                    postal_code: p.postal_code,
                    birth_date: decode_64(&p.birth_date),
                },
            ),
            Err(_) => Err(Error::ProfileNotFound),
        }
    }
}

} // verus!
