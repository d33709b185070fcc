use account_records::bounded::{encode_128, encode_64, Str64};
use account_records::profile::{
    BloodType, District, Error, Event, Gender, MaritalStatus, Pallet, Province, UserProfileData,
    UserProfileDataUpdate,
};
use account_records::user;
use bounded_collections::BoundedVec;

struct Form {
    f_name: String,
    m_name: String,
    l_name: String,
    marital_status: MaritalStatus,
    pf_pic_path: String,
    gender: Gender,
    blood_group: BloodType,
    nationality: String,
    religion: String,
    lit_lang: String,
    province: Province,
    district: District,
    city: String,
    division: String,
    postal_code: u32,
    birth_date: String,
}

fn jane() -> Form {
    Form {
        f_name: "Jane".to_string(),
        m_name: "Quinn".to_string(),
        l_name: "Doe".to_string(),
        marital_status: MaritalStatus::Single,
        pf_pic_path: "/pics/jane.png".to_string(),
        gender: Gender::Female,
        blood_group: BloodType::OPos,
        nationality: "Sri Lankan".to_string(),
        religion: "None".to_string(),
        lit_lang: "English".to_string(),
        province: Province::Western,
        district: District::Colombo,
        city: "Colombo".to_string(),
        division: "Central".to_string(),
        postal_code: 400,
        birth_date: "1990-05-17".to_string(),
    }
}

fn fetched(form: Form) -> Event {
    Event::ProfileDataFetched {
        f_name: form.f_name,
        m_name: form.m_name,
        l_name: form.l_name,
        marital_status: form.marital_status,
        pf_pic_path: form.pf_pic_path,
        gender: form.gender,
        blood_group: form.blood_group,
        nationality: form.nationality,
        religion: form.religion,
        lit_lang: form.lit_lang,
        province: form.province,
        district: form.district,
        city: form.city,
        division: form.division,
        postal_code: form.postal_code,
        birth_date: form.birth_date,
    }
}

fn create(profiles: &mut Pallet<u64>, users: &user::Pallet<u64>, who: u64, form: Form) -> Result<Event, Error> {
    profiles.create_profile(
        users,
        who,
        form.f_name,
        form.m_name,
        form.l_name,
        form.marital_status,
        form.pf_pic_path,
        form.gender,
        form.blood_group,
        form.nationality,
        form.religion,
        form.lit_lang,
        form.province,
        form.district,
        form.city,
        form.division,
        form.postal_code,
        form.birth_date,
    )
}

fn users_with(accounts: &[u64]) -> user::Pallet<u64> {
    let mut users: user::Pallet<u64> = user::Pallet::new();
    for who in accounts {
        let r = users.create_user(*who, "Jane".to_string(), "Doe".to_string(), "1 Main St".to_string(), 30);
        assert_eq!(r, Ok(user::Event::UserDataCreated));
    }
    users
}

fn text(value: &str) -> Option<Str64> {
    Some(encode_64(value).unwrap())
}

#[test]
fn profile_needs_a_user_record() {
    let mut users: user::Pallet<u64> = user::Pallet::new();
    let mut profiles: Pallet<u64> = Pallet::new();
    assert_eq!(create(&mut profiles, &users, 1, jane()), Err(Error::UserNotRegistered));
    assert_eq!(profiles.get_my_profile_details(&1), Err(Error::ProfileNotFound));
    let r = users.create_user(1, "Jane".to_string(), "Doe".to_string(), "1 Main St".to_string(), 30);
    assert_eq!(r, Ok(user::Event::UserDataCreated));
    assert_eq!(create(&mut profiles, &users, 1, jane()), Ok(Event::ProfileCreated));
    // The user record of another account does not count.
    assert_eq!(create(&mut profiles, &users, 2, jane()), Err(Error::UserNotRegistered));
}

#[test]
fn profile_fetch_returns_what_was_created() {
    let users = users_with(&[1, 2]);
    let mut profiles: Pallet<u64> = Pallet::new();
    assert_eq!(create(&mut profiles, &users, 1, jane()), Ok(Event::ProfileCreated));
    assert_eq!(profiles.get_my_profile_details(&1), Ok(fetched(jane())));
    let mut other = jane();
    other.f_name = "Zoë".to_string();
    other.m_name = String::new();
    other.marital_status = MaritalStatus::Widowed;
    other.gender = Gender::Other;
    other.blood_group = BloodType::ABNeg;
    other.province = Province::Sabaragamuwa;
    other.district = District::Gampaha;
    other.postal_code = 0;
    other.birth_date = "2024-13-99".to_string();
    assert_eq!(create(&mut profiles, &users, 2, other), Ok(Event::ProfileCreated));
    let fetched_other = profiles.get_my_profile_details(&2).unwrap();
    match fetched_other {
        Event::ProfileDataFetched { f_name, m_name, marital_status, gender, blood_group, province, district, postal_code, birth_date, l_name, .. } => {
            assert_eq!(f_name, "Zoë");
            assert_eq!(m_name, "");
            assert_eq!(l_name, "Doe");
            assert_eq!(marital_status, MaritalStatus::Widowed);
            assert_eq!(gender, Gender::Other);
            assert_eq!(blood_group, BloodType::ABNeg);
            assert_eq!(province, Province::Sabaragamuwa);
            assert_eq!(district, District::Gampaha);
            assert_eq!(postal_code, 0);
            assert_eq!(birth_date, "2024-13-99");
        }
        _ => panic!("a fetch answers with the fetched details"),
    }
    assert_eq!(profiles.get_my_profile_details(&1), Ok(fetched(jane())));
}

#[test]
fn profile_create_twice_is_refused() {
    let users = users_with(&[1]);
    let mut profiles: Pallet<u64> = Pallet::new();
    assert_eq!(create(&mut profiles, &users, 1, jane()), Ok(Event::ProfileCreated));
    let mut second = jane();
    second.f_name = "Janet".to_string();
    assert_eq!(create(&mut profiles, &users, 1, second), Err(Error::DuplicateProfile));
    assert_eq!(profiles.get_my_profile_details(&1), Ok(fetched(jane())));
    // A duplicate counts before any fault of the values.
    let mut third = jane();
    third.birth_date = "yesterday".to_string();
    third.city = "x".repeat(65);
    assert_eq!(create(&mut profiles, &users, 1, third), Err(Error::DuplicateProfile));
    assert_eq!(profiles.get_my_profile_details(&1), Ok(fetched(jane())));
}

#[test]
fn profile_create_refuses_long_texts() {
    let users = users_with(&[1]);
    let mut profiles: Pallet<u64> = Pallet::new();
    let long64 = "x".repeat(65);
    let long128 = "x".repeat(129);
    let mut form = jane();
    form.f_name = long64.clone();
    assert_eq!(create(&mut profiles, &users, 1, form), Err(Error::StringTooLong));
    let mut form = jane();
    form.m_name = long64.clone();
    assert_eq!(create(&mut profiles, &users, 1, form), Err(Error::StringTooLong));
    let mut form = jane();
    form.l_name = long64.clone();
    assert_eq!(create(&mut profiles, &users, 1, form), Err(Error::StringTooLong));
    let mut form = jane();
    form.pf_pic_path = long128.clone();
    assert_eq!(create(&mut profiles, &users, 1, form), Err(Error::StringTooLong));
    let mut form = jane();
    form.nationality = long64.clone();
    assert_eq!(create(&mut profiles, &users, 1, form), Err(Error::StringTooLong));
    let mut form = jane();
    form.religion = long64.clone();
    assert_eq!(create(&mut profiles, &users, 1, form), Err(Error::StringTooLong));
    let mut form = jane();
    form.lit_lang = long64.clone();
    assert_eq!(create(&mut profiles, &users, 1, form), Err(Error::StringTooLong));
    let mut form = jane();
    form.city = long64.clone();
    assert_eq!(create(&mut profiles, &users, 1, form), Err(Error::StringTooLong));
    let mut form = jane();
    form.division = long64.clone();
    assert_eq!(create(&mut profiles, &users, 1, form), Err(Error::StringTooLong));
    // A long text counts before a birth date of the wrong shape.
    let mut form = jane();
    form.division = long64.clone();
    form.birth_date = "1990/05/17".to_string();
    assert_eq!(create(&mut profiles, &users, 1, form), Err(Error::StringTooLong));
    assert_eq!(profiles.get_my_profile_details(&1), Err(Error::ProfileNotFound));
    // The picture path may have up to 128 bytes.
    let mut form = jane();
    form.pf_pic_path = "p".repeat(128);
    assert_eq!(create(&mut profiles, &users, 1, form), Ok(Event::ProfileCreated));
}

#[test]
fn profile_create_refuses_a_birth_date_of_the_wrong_shape() {
    let users = users_with(&[1]);
    let mut profiles: Pallet<u64> = Pallet::new();
    for date in ["1990/05/17", "1990-5-17", "", "17-05-1990", "1990-05-17 ", &"1".repeat(65)] {
        let mut form = jane();
        form.birth_date = date.to_string();
        assert_eq!(create(&mut profiles, &users, 1, form), Err(Error::InvalidBirthDate));
        assert_eq!(profiles.get_my_profile_details(&1), Err(Error::ProfileNotFound));
    }
}

#[test]
fn profile_operations_on_an_absent_account() {
    let users = users_with(&[1]);
    let mut profiles: Pallet<u64> = Pallet::new();
    assert_eq!(create(&mut profiles, &users, 1, jane()), Ok(Event::ProfileCreated));
    let mut update = UserProfileDataUpdate::default();
    update.f_name = text("Janet");
    assert_eq!(profiles.update_profile(2, update), Err(Error::ProfileNotFound));
    assert_eq!(profiles.remove_profile(&2), Err(Error::ProfileNotFound));
    assert_eq!(profiles.get_my_profile_details(&2), Err(Error::ProfileNotFound));
    assert_eq!(profiles.record(&2), None);
    assert_eq!(profiles.get_my_profile_details(&1), Ok(fetched(jane())));
}

#[test]
fn profile_update_without_fields_changes_nothing() {
    let users = users_with(&[1]);
    let mut profiles: Pallet<u64> = Pallet::new();
    assert_eq!(create(&mut profiles, &users, 1, jane()), Ok(Event::ProfileCreated));
    assert_eq!(profiles.update_profile(1, UserProfileDataUpdate::default()), Ok(Event::ProfileUpdated));
    assert_eq!(profiles.get_my_profile_details(&1), Ok(fetched(jane())));
}

#[test]
fn profile_update_writes_only_present_fields() {
    let users = users_with(&[1]);
    let mut profiles: Pallet<u64> = Pallet::new();
    assert_eq!(create(&mut profiles, &users, 1, jane()), Ok(Event::ProfileCreated));
    let mut update = UserProfileDataUpdate::default();
    update.l_name = text("Dove");
    update.marital_status = Some(MaritalStatus::Married);
    update.postal_code = Some(10100);
    update.birth_date = text("1991-06-18");
    assert_eq!(profiles.update_profile(1, update), Ok(Event::ProfileUpdated));
    let mut expected = jane();
    expected.l_name = "Dove".to_string();
    expected.marital_status = MaritalStatus::Married;
    expected.postal_code = 10100;
    expected.birth_date = "1991-06-18".to_string();
    assert_eq!(profiles.get_my_profile_details(&1), Ok(fetched(expected)));
}

#[test]
fn profile_update_of_every_field() {
    let users = users_with(&[1]);
    let mut profiles: Pallet<u64> = Pallet::new();
    assert_eq!(create(&mut profiles, &users, 1, jane()), Ok(Event::ProfileCreated));
    let update = UserProfileDataUpdate {
        f_name: text("John"),
        m_name: text("R"),
        l_name: text("Roe"),
        marital_status: Some(MaritalStatus::Divorced),
        pf_pic_path: Some(encode_128("/pics/john.png").unwrap()),
        gender: Some(Gender::Male),
        blood_group: Some(BloodType::BNeg),
        nationality: text("Maldivian"),
        religion: text("Other"),
        lit_lang: text("Tamil"),
        province: Some(Province::Uva),
        district: Some(District::Gampaha),
        city: text("Badulla"),
        division: text("East"),
        postal_code: Some(90000),
        birth_date: text("1985-12-31"),
    };
    assert_eq!(profiles.update_profile(1, update), Ok(Event::ProfileUpdated));
    let expected = Form {
        f_name: "John".to_string(),
        m_name: "R".to_string(),
        l_name: "Roe".to_string(),
        marital_status: MaritalStatus::Divorced,
        pf_pic_path: "/pics/john.png".to_string(),
        gender: Gender::Male,
        blood_group: BloodType::BNeg,
        nationality: "Maldivian".to_string(),
        religion: "Other".to_string(),
        lit_lang: "Tamil".to_string(),
        province: Province::Uva,
        district: District::Gampaha,
        city: "Badulla".to_string(),
        division: "East".to_string(),
        postal_code: 90000,
        birth_date: "1985-12-31".to_string(),
    };
    assert_eq!(profiles.get_my_profile_details(&1), Ok(fetched(expected)));
}

#[test]
fn profile_update_is_all_or_nothing() {
    let users = users_with(&[1]);
    let mut profiles: Pallet<u64> = Pallet::new();
    assert_eq!(create(&mut profiles, &users, 1, jane()), Ok(Event::ProfileCreated));
    let mut update = UserProfileDataUpdate::default();
    update.f_name = text("Janet");
    update.gender = Some(Gender::Other);
    update.postal_code = Some(1);
    update.birth_date = text("1991/06/18");
    assert_eq!(profiles.update_profile(1, update), Err(Error::InvalidBirthDate));
    assert_eq!(profiles.get_my_profile_details(&1), Ok(fetched(jane())));
    // Bytes that are no text are no date either.
    let mut update = UserProfileDataUpdate::default();
    update.city = text("Kandy");
    update.birth_date = Some(BoundedVec::try_from(vec![0xff; 10]).unwrap());
    assert_eq!(profiles.update_profile(1, update), Err(Error::InvalidBirthDate));
    assert_eq!(profiles.get_my_profile_details(&1), Ok(fetched(jane())));
}

#[test]
fn profile_update_keeps_malformed_bytes_and_fetch_reads_them_as_empty() {
    let users = users_with(&[1]);
    let mut profiles: Pallet<u64> = Pallet::new();
    assert_eq!(create(&mut profiles, &users, 1, jane()), Ok(Event::ProfileCreated));
    let mut update = UserProfileDataUpdate::default();
    update.city = Some(BoundedVec::try_from(vec![0x4b, 0xff]).unwrap());
    assert_eq!(profiles.update_profile(1, update), Ok(Event::ProfileUpdated));
    let mut expected = jane();
    expected.city = String::new();
    assert_eq!(profiles.get_my_profile_details(&1), Ok(fetched(expected)));
    assert_eq!(profiles.record(&1).unwrap().city.to_vec(), vec![0x4b, 0xff]);
}

#[test]
fn profile_remove_then_fetch() {
    let users = users_with(&[1]);
    let mut profiles: Pallet<u64> = Pallet::new();
    assert_eq!(create(&mut profiles, &users, 1, jane()), Ok(Event::ProfileCreated));
    assert_eq!(profiles.remove_profile(&1), Ok(Event::ProfileRemoved));
    assert_eq!(profiles.get_my_profile_details(&1), Err(Error::ProfileNotFound));
    assert_eq!(profiles.remove_profile(&1), Err(Error::ProfileNotFound));
    assert_eq!(create(&mut profiles, &users, 1, jane()), Ok(Event::ProfileCreated));
}

#[test]
fn profile_outlives_its_user_record() {
    let mut users = users_with(&[1]);
    let mut profiles: Pallet<u64> = Pallet::new();
    assert_eq!(create(&mut profiles, &users, 1, jane()), Ok(Event::ProfileCreated));
    assert_eq!(users.remove_user(&1), Ok(user::Event::UserDataRemoved));
    assert_eq!(profiles.get_my_profile_details(&1), Ok(fetched(jane())));
    let mut update = UserProfileDataUpdate::default();
    update.city = text("Kandy");
    assert_eq!(profiles.update_profile(1, update), Ok(Event::ProfileUpdated));
    // Without the user record a second create is refused for that reason.
    assert_eq!(create(&mut profiles, &users, 1, jane()), Err(Error::UserNotRegistered));
    assert_eq!(profiles.remove_profile(&1), Ok(Event::ProfileRemoved));
    assert_eq!(create(&mut profiles, &users, 1, jane()), Err(Error::UserNotRegistered));
}

#[test]
fn profile_restore_checks_the_birth_date() {
    let mut profiles: Pallet<u64> = Pallet::new();
    let record = |birth_date: &str| UserProfileData {
        f_name: encode_64("Jane").unwrap(),
        m_name: encode_64("Quinn").unwrap(),
        l_name: encode_64("Doe").unwrap(),
        marital_status: MaritalStatus::Single,
        pf_pic_path: encode_128("/pics/jane.png").unwrap(),
        gender: Gender::Female,
        blood_group: BloodType::OPos,
        nationality: encode_64("Sri Lankan").unwrap(),
        religion: encode_64("None").unwrap(),
        lit_lang: encode_64("English").unwrap(),
        province: Province::Western,
        district: District::Colombo,
        city: encode_64("Colombo").unwrap(),
        division: encode_64("Central").unwrap(),
        postal_code: 400,
        birth_date: encode_64(birth_date).unwrap(),
    };
    assert_eq!(profiles.restore(1, record("17 May 1990")), Err(Error::InvalidBirthDate));
    assert_eq!(profiles.record(&1), None);
    assert_eq!(profiles.restore(1, record("1990-05-17")), Ok(()));
    assert_eq!(profiles.record(&1), Some(&record("1990-05-17")));
    assert_eq!(profiles.get_my_profile_details(&1), Ok(fetched(jane())));
}

#[test]
fn profile_update_default_has_no_field() {
    let update = UserProfileDataUpdate::default();
    assert_eq!(
        update,
        UserProfileDataUpdate {
            f_name: None,
            m_name: None,
            l_name: None,
            marital_status: None,
            pf_pic_path: None,
            gender: None,
            blood_group: None,
            nationality: None,
            religion: None,
            lit_lang: None,
            province: None,
            district: None,
            city: None,
            division: None,
            postal_code: None,
            birth_date: None,
        }
    );
}
