use pinespot::config::Config;
use pinespot::errors::AppError;
use pinespot::listings::{plan_listing_search, search_text, ApartmentCondition, BindValue, ListingOrder, ListingPlan, SaleType};
use pinespot::mail::ZeptoMail;
use pinespot::media::{image_extension, is_primary_picture, picture_location};
use pinespot::oauth::{github_scopes, google_scopes, pending_sign_up_cookie, pkce_verifier_from_cookie, OAuthUserIdCookie, OptionalOAuthUserIdCookie};
use pinespot::passwords::{hash_password, password_matches};
use pinespot::schemas::{default_limit, default_offset, ListingQuery, Pagination, SearchParams, Sort};
use pinespot::search::{hybrid_search_plan, listing_ids_from_points, FusionKind, PointIdValue};
use pinespot::uploads::{embedding_text, listing_deletion_outcome, listing_fetch_error, listing_part, qdrant_credentials, tags_to_store, upload_error, ListingPart, ListingUpload, UploadFailure};
use pinespot::users::{
    email_verification_outcome, found_user, new_user_from_profile, pending_sign_up_redirect, profile_field,
    user_deletion_outcome, ContinueWithEmailSchema, GithubOAuthUser, GoogleOAuthUser, Moment, OAuthUser,
    OAuthUserSchema, PhoneNumber, PhoneResponse, ProfileField, Provider, User, UserRole, UserStatus,
};

fn config() -> Config {
    Config {
        secret_key: Some("s".to_string()),
        access_token_expire_in_minute: Some(15),
        refresh_token_expire_in_days: Some(30),
        email_verification_token_expire_in_hours: Some(24),
        refresh_token_renewal_threshold_days: None,
        cookie_secure: Some(true),
        frontend_endpoint: "https://pinespot.uz".to_string(),
        email_service_api_key: Some("KEY".to_string()),
        qdrant_url: Some("http://localhost:6334".to_string()),
        qdrant_api_key: None,
    }
}

fn validation_message(r: Result<(), AppError>) -> Option<String> {
    match r {
        Ok(()) => None,
        Err(AppError::ValidationError(m)) => Some(m),
        Err(e) => panic!("unexpected {e:?}"),
    }
}

#[test]
fn pagination_bounds() {
    assert_eq!((default_offset(), default_limit()), (0, 20));
    assert!(Pagination::default().validate().is_ok());
    assert!(Pagination { offset: 0, limit: 100 }.validate().is_ok());
    assert!(Pagination { offset: 5, limit: 1 }.validate().is_ok());
    assert_eq!(validation_message(Pagination { offset: -1, limit: 0 }.validate()).unwrap(), "Offset must be positive");
    assert_eq!(validation_message(Pagination { offset: 0, limit: -5 }.validate()).unwrap(), "Limit must positive");
    assert_eq!(validation_message(Pagination { offset: 0, limit: 0 }.validate()).unwrap(), "Limit must not be zero!");
    assert_eq!(validation_message(Pagination { offset: 0, limit: 101 }.validate()).unwrap(), "Limit cannot exceed 100");
}

fn clauses(plan: &ListingPlan) -> Vec<String> {
    match plan {
        ListingPlan::Query { filters, .. } => filters.iter().map(|f| format!("{}{}", f.clause, f.cast)).collect(),
        ListingPlan::NoMatches => vec![],
    }
}

#[test]
fn plain_query_filters_nothing_and_shows_newest() {
    let q = ListingQuery { pagination: Pagination { offset: 40, limit: 20 }, search_params: SearchParams::default() };
    let plan = plan_listing_search(&q, None);
    assert!(clauses(&plan).is_empty());
    match plan {
        ListingPlan::Query { order, offset, limit, .. } => {
            assert!(matches!(order, ListingOrder::NewestFirst));
            assert_eq!((offset, limit), (40, 20));
        }
        ListingPlan::NoMatches => panic!("no text search ran"),
    }
}

#[test]
fn filters_follow_the_parameters() {
    let mut p = SearchParams::default();
    p.country = "Uzbekistan".to_string();
    p.max_price = Some(90000);
    p.min_rooms = Some(2);
    p.min_beds = Some(0);
    p.apartment_floor = Some(0);
    p.condition = Some(ApartmentCondition::Repaired);
    p.sale_type = Some(SaleType::Rent);
    p.furnished = Some(false);
    p.max_distance_to_metro = Some(3);
    p.max_distance_to_school = Some(-1);
    p.sort = Some(Sort::Cheap);
    let q = ListingQuery { pagination: Pagination::default(), search_params: p };
    let plan = plan_listing_search(&q, None);
    assert_eq!(
        clauses(&plan),
        vec![
            " AND ad.country = ",
            " AND l.price <= ::numeric",
            " AND a.rooms >= ",
            " AND a.apartment_floor = ",
            " AND a.condition = ::apartment_condition",
            " AND a.sale_type = ::sale_type",
            " AND a.furnished = ",
            " AND a.distance_to_metro <= ",
        ]
    );
    match plan {
        ListingPlan::Query { filters, order, .. } => {
            assert!(matches!(&filters[1].value, BindValue::Text(t) if t == "90000"));
            assert!(matches!(&filters[4].value, BindValue::Text(t) if t == "repaired"));
            assert!(matches!(&filters[5].value, BindValue::Text(t) if t == "rent"));
            assert!(matches!(filters[6].value, BindValue::Bool(false)));
            assert!(matches!(order, ListingOrder::CheapestFirst));
        }
        ListingPlan::NoMatches => panic!("no text search ran"),
    }
}

#[test]
fn blank_country_and_zero_price_filter_nothing() {
    let mut p = SearchParams::default();
    p.country = "   ".to_string();
    p.max_price = Some(0);
    p.sort = Some(Sort::Expensive);
    let q = ListingQuery { pagination: Pagination::default(), search_params: p };
    let plan = plan_listing_search(&q, None);
    assert!(clauses(&plan).is_empty());
    assert!(matches!(plan, ListingPlan::Query { order: ListingOrder::MostExpensiveFirst, .. }));
}

#[test]
fn text_search_ranks_and_restricts() {
    let mut p = SearchParams::default();
    p.q = Some("  sunny flat ".to_string());
    p.sort = Some(Sort::Cheap);
    assert_eq!(search_text(&p), Some("sunny flat".to_string()));
    let q = ListingQuery { pagination: Pagination::default(), search_params: p };
    assert!(matches!(plan_listing_search(&q, Some(vec![])), ListingPlan::NoMatches));
    let plan = plan_listing_search(&q, Some(vec![3, 1, 2]));
    assert_eq!(clauses(&plan), vec![" AND l.id = ANY()"]);
    match plan {
        ListingPlan::Query { order: ListingOrder::Relevance(ids), .. } => assert_eq!(ids, vec![3, 1, 2]),
        _ => panic!("a ranked search keeps its ranking"),
    }
    let mut blank = SearchParams::default();
    blank.q = Some("   ".to_string());
    assert_eq!(search_text(&blank), None);
}

#[test]
fn hybrid_search_request() {
    let h = hybrid_search_plan(&"Uzbekistan".to_string());
    assert_eq!((h.collection, h.text_vector, h.image_vector), ("listings", "text", "image"));
    assert_eq!((h.text_limit, h.image_limit, h.limit), (100, 50, 50));
    assert_eq!(h.fusion, FusionKind::ReciprocalRank);
    assert!(h.with_payload);
    assert_eq!(h.country, Some("Uzbekistan".to_string()));
    assert_eq!(hybrid_search_plan(&" ".to_string()).country, None);
}

#[test]
fn points_become_listing_ids() {
    assert_eq!(listing_ids_from_points(&vec![]), None);
    let points = vec![
        Some(PointIdValue::Uuid("00000000-0000-0000-0000-000000000002".to_string())),
        None,
        Some(PointIdValue::Num(7)),
        Some(PointIdValue::Uuid("nonsense".to_string())),
        Some(PointIdValue::Uuid("00000000000000000000000000000001".to_string())),
    ];
    assert_eq!(listing_ids_from_points(&points), Some(vec![2, 1]));
    assert_eq!(listing_ids_from_points(&vec![None]), Some(vec![]));
}

#[test]
fn listing_upload_parts() {
    assert_eq!(listing_part("listing_data"), ListingPart::ListingData);
    assert_eq!(listing_part("pictures"), ListingPart::Picture);
    assert_eq!(listing_part("other"), ListingPart::Unknown);
    let mut u = ListingUpload::new();
    u.accept_picture(vec![1, 2]);
    u.accept_listing_data("{}".to_string());
    u.accept_picture(vec![3]);
    assert_eq!(u.listing_json, Some("{}".to_string()));
    assert_eq!(u.pictures, vec![vec![1, 2], vec![3]]);
    assert!(matches!(upload_error(UploadFailure::Picture), AppError::InvalidFormData(m) if m == "Failed to read picture file"));
}

#[test]
fn stored_tags_skip_empty_ones() {
    let tags = vec!["sea".to_string(), "".to_string(), "quiet".to_string()];
    assert_eq!(tags_to_store(&tags), vec!["sea".to_string(), "quiet".to_string()]);
}

#[test]
fn embedding_text_joins_title_and_description() {
    assert_eq!(embedding_text("Flat", &Some("near park".to_string())), "Flat near park");
    assert_eq!(embedding_text("Flat", &None), "Flat");
}

#[test]
fn pictures() {
    let png = [0x89u8, 0x50, 0x4E, 0x47, 0x0D, 0x0A, 0x1A, 0x0A, 0, 0, 0, 0x0D];
    assert_eq!(image_extension(&png).unwrap(), "png");
    assert!(matches!(image_extension(b"plain text"), Err(AppError::InvalidImageFormatError(m)) if m == "Invalid image format"));
    assert_eq!(
        picture_location(1, 2, "jpg"),
        "00000000-0000-0000-0000-000000000001/00000000-0000-0000-0000-000000000002.jpg"
    );
    assert!(is_primary_picture(0));
    assert!(!is_primary_picture(1));
}

#[test]
fn listing_outcomes() {
    assert!(matches!(
        listing_fetch_error(5),
        AppError::DatabaseFetchError { resource, id } if resource == "Model" && id == "00000000-0000-0000-0000-000000000005"
    ));
    assert_eq!(listing_deletion_outcome(1, 5).unwrap(), 204);
    assert!(matches!(listing_deletion_outcome(0, 5), Err(AppError::DatabaseDeleteError { resource, .. }) if resource == "Listing"));
}

#[test]
fn qdrant_settings_are_required() {
    let cfg = config();
    assert!(matches!(qdrant_credentials(&cfg), Err(AppError::MissingQdrantApiKeyError)));
    let mut c2 = config();
    c2.qdrant_url = None;
    assert!(matches!(qdrant_credentials(&c2), Err(AppError::MissingQdrantUrlError)));
    let mut c3 = config();
    c3.qdrant_api_key = Some("k".to_string());
    assert_eq!(qdrant_credentials(&c3).unwrap(), ("http://localhost:6334".to_string(), "k".to_string()));
}

#[test]
fn verification_mail() {
    let z = ZeptoMail::new();
    assert_eq!(z.api_url, "https://api.zeptomail.com/v1.1/email/template");
    let m = z.verification_email("a@b.uz".into(), "Ali".into(), "https://x?t".into());
    assert_eq!(m.template_alias, "pinespot-email-verification-link-key-alias");
    assert_eq!((m.from_name.as_str(), m.from_address.as_str()), ("PineSpot Verification", "verification@kronk.uz"));
    assert_eq!((m.to_name.as_str(), m.to_address.as_str()), ("Ali", "a@b.uz"));
    assert_eq!(ZeptoMail::authorization(&config()).unwrap(), "Zoho-enczapikey KEY");
    let mut no_key = config();
    no_key.email_service_api_key = None;
    assert!(matches!(ZeptoMail::authorization(&no_key), Err(AppError::MissingEmailServiceApiKeyError)));
    assert!(ZeptoMail::delivery_outcome(201, "201 Created", "{}").is_ok());
    assert!(matches!(
        ZeptoMail::delivery_outcome(400, "400 Bad Request", "body"),
        Err(AppError::ExternalServiceError(m)) if m == "ZeptoMail error (status 400 Bad Request): body"
    ));
    assert!(matches!(ZeptoMail::request_failed("dns"), AppError::ExternalServiceError(m) if m == "ZeptoMail request failed: dns"));
}

#[test]
fn oauth_flow_pieces() {
    assert_eq!(google_scopes(), vec!["openid", "email", "profile", "https://www.googleapis.com/auth/user.phonenumbers.read"]);
    assert_eq!(github_scopes(), vec!["user:email"]);
    assert!(matches!(pkce_verifier_from_cookie(None), Err(AppError::MissingPkceCodeVerifierError)));
    assert_eq!(pkce_verifier_from_cookie(Some("v".into())).unwrap(), "v");
    let c = pending_sign_up_cookie(Provider::Github, "583231", &config());
    assert_eq!((c.name.as_str(), c.value.as_str()), ("github_oauth_user_id", "583231"));
    let p = OptionalOAuthUserIdCookie::from_cookies(None, Some("1".into()), Some("2".into()));
    let p = p.0.unwrap();
    assert_eq!((p.id.as_str(), p.provider), ("1", Provider::Github));
    assert!(matches!(OAuthUserIdCookie::from_cookies(None, None, None), Err(AppError::MissingOAuthIdError)));
    let e = OAuthUserIdCookie::from_cookies(None, None, Some("e".into())).unwrap();
    assert!(e.sends_verification_email());
    assert!(pending_sign_up_redirect(true).unwrap().redirect_to == "complete-profile");
    assert!(pending_sign_up_redirect(false).is_none());
}

fn moment() -> Moment {
    Moment { unix_micros: 0 }
}

#[test]
fn third_party_profiles() {
    let g = GoogleOAuthUser {
        sub: "1098".into(),
        email: Some("a@gmail.com".into()),
        email_verified: true,
        family_name: None,
        given_name: None,
        name: Some("Ali".into()),
        picture: None,
        phone_number: Some("+998".into()),
        created_at: moment(),
    };
    let o = OAuthUser::from_google(g);
    assert_eq!((o.id.as_str(), o.provider, o.full_name.as_deref()), ("1098", Provider::Google, Some("Ali")));
    let h = GithubOAuthUser {
        id: 583231,
        login: "octocat".into(),
        avatar_url: "https://a/1".into(),
        name: Some("The Octocat".into()),
        email: None,
        created_at: moment(),
    };
    let o = OAuthUser::from_github(h);
    assert_eq!(o.id, "583231");
    assert_eq!(o.username.as_deref(), Some("octocat"));
    assert_eq!(o.full_name, None);
    assert_eq!(o.picture.as_deref(), Some("https://a/1"));
    assert!(matches!(OAuthUser::found(None), Err(AppError::OAuthUserNotFoundError)));
    let phones = PhoneResponse { phone_numbers: Some(vec![PhoneNumber { value: "+1".into() }, PhoneNumber { value: "+2".into() }]) };
    assert_eq!(phones.first_phone_number(), Some("+1".to_string()));
    assert_eq!(PhoneResponse { phone_numbers: Some(vec![]) }.first_phone_number(), None);
}

fn user(hash: String) -> User {
    User {
        id: 9,
        full_name: "Ali".into(),
        email: "ali@pinespot.uz".into(),
        phone_number: None,
        password: hash,
        picture: None,
        role: UserRole::default(),
        status: UserStatus::default(),
        email_verified: false,
        oauth_user_id: None,
        created_at: moment(),
        updated_at: moment(),
    }
}

#[test]
fn email_form_validation() {
    let ok = ContinueWithEmailSchema { email: "ali@pinespot.uz".into(), password: "correct horse".into() };
    assert!(ok.validate().is_ok());
    let bad_email = ContinueWithEmailSchema { email: "nope".into(), password: "correct horse".into() };
    assert!(matches!(bad_email.validate(), Err(AppError::ValidatorValidationErrors(m)) if m == "email: Invalid email address"));
    let short = ContinueWithEmailSchema { email: "ali@pinespot.uz".into(), password: "short".into() };
    assert!(matches!(short.validate(), Err(AppError::ValidatorValidationErrors(m)) if m == "password: Password should be long between 8 and 32"));
    let both = ContinueWithEmailSchema { email: "x".into(), password: "y".repeat(33) };
    match both.validate() {
        Err(AppError::ValidatorValidationErrors(m)) => {
            let mut lines: Vec<&str> = m.lines().collect();
            lines.sort();
            assert_eq!(lines, vec!["email: Invalid email address", "password: Password should be long between 8 and 32"]);
        }
        other => panic!("unexpected {:?}", other),
    }
}

#[test]
fn stored_password_signs_in() {
    let hash = hash_password("correct horse").unwrap();
    assert!(password_matches("correct horse", &hash).unwrap());
    assert!(!password_matches("wrong horse!", &hash).unwrap());
    assert!(hash.starts_with("$2b$12$") && hash.len() == 60);
    assert!(matches!(password_matches("x", "not a hash"), Err(AppError::BcryptError(_))));
    let form = ContinueWithEmailSchema { email: "ali@pinespot.uz".into(), password: "correct horse".into() };
    assert_eq!(form.verify(Some(user(hash.clone()))).unwrap().unwrap().id, 9);
    assert!(form.verify(None).unwrap().is_none());
    let wrong = ContinueWithEmailSchema { email: "ali@pinespot.uz".into(), password: "wrong horse!".into() };
    assert!(matches!(wrong.verify(Some(user(hash))), Err(AppError::ValidationError(m)) if m == "Password is incorrect"));
}

#[test]
fn profile_completion() {
    assert_eq!(profile_field("full_name"), ProfileField::FullName);
    assert_eq!(profile_field("picture"), ProfileField::Picture);
    assert_eq!(profile_field("nickname"), ProfileField::Ignored);
    let mut form = OAuthUserSchema::empty();
    form.accept(ProfileField::FullName, "Ali".into());
    form.accept(ProfileField::Email, "ali@pinespot.uz".into());
    form.accept(ProfileField::Password, "first".into());
    form.accept(ProfileField::Password, "secret pass".into());
    form.accept(ProfileField::Ignored, "dropped".into());
    let u = new_user_from_profile(form, 77, "github-1".into()).unwrap();
    assert_eq!((u.id, u.full_name.as_str(), u.email.as_str(), u.oauth_user_id.as_str()), (77, "Ali", "ali@pinespot.uz", "github-1"));
    assert!(password_matches("secret pass", &u.password_hash).unwrap());
    assert_eq!(u.phone_number, None);
}

#[test]
fn user_outcomes() {
    assert!(matches!(found_user(None), Err(AppError::NotFoundError(m)) if m == "User not found"));
    assert_eq!(user_deletion_outcome(1).unwrap(), 204);
    assert!(matches!(user_deletion_outcome(0), Err(AppError::NotFoundError(_))));
    assert_eq!(email_verification_outcome(1).unwrap(), 200);
    assert!(matches!(email_verification_outcome(0), Err(AppError::QueryError(m)) if m == "User couldn't set to verified"));
}

#[test]
fn inactive_bounds_and_blank_countries_filter_nothing() {
    let mut p = SearchParams::default();
    p.max_price = Some(0);
    p.min_rooms = Some(0);
    p.min_area = Some(-3);
    p.max_distance_to_metro = Some(-1);
    p.country = "  \t".to_string();
    let q = ListingQuery { pagination: Pagination::default(), search_params: p };
    assert!(clauses(&plan_listing_search(&q, None)).is_empty());
    let mut floor = SearchParams::default();
    floor.apartment_floor = Some(0);
    let q = ListingQuery { pagination: Pagination::default(), search_params: floor };
    assert_eq!(clauses(&plan_listing_search(&q, None)), vec![" AND a.apartment_floor = "]);
}

#[test]
fn unranked_text_search_is_ignored() {
    let mut p = SearchParams::default();
    p.q = Some("sea view".to_string());
    p.min_beds = Some(2);
    let with_text = plan_listing_search(&ListingQuery { pagination: Pagination::default(), search_params: p }, None);
    let mut p = SearchParams::default();
    p.min_beds = Some(2);
    let without = plan_listing_search(&ListingQuery { pagination: Pagination::default(), search_params: p }, None);
    assert_eq!(clauses(&with_text), clauses(&without));
    assert!(matches!(with_text, ListingPlan::Query { order: ListingOrder::NewestFirst, .. }));
}

#[test]
fn upload_listing_text() {
    let mut u = ListingUpload::new();
    assert_eq!(u.listing_text(), None);
    u.accept_listing_data("{\"a\":1}".to_string());
    assert_eq!(u.listing_text(), Some("{\"a\":1}".to_string()));
}
