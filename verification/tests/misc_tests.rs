use trackivity::activities::{join_activity, update_activity, JoinResponse, UpdateActivityInput};
use trackivity::store::{refuse_create, InsertOutcome};
use trackivity::admins::{
    list_admins, list_organization_admins, AdminRoleView,
    admin_student_id, fresh_admin_student_id, initial_password, initial_permissions, optional_id,
    CreateAdminInput,
};
use trackivity::auth::models::{ForgotPasswordInput, RegisterInput, RegisterResponse, ResetPasswordInput};
use trackivity::auth::password::{check_password, hash_with_salt, PasswordCheck};
use trackivity::auth::recovery::{
    decide_reset, forgot_password_answer, forgot_password_handler, forgot_password_mail, make_reset_token, register_handler, register_outcome,
    register_with, reset_password_handler, MailConfig, ResetDecision,
};
use trackivity::clock::instant_text;
use trackivity::ident::{fresh_id, id_text, parse_id};
use trackivity::models::{ActivityStatus, ActivityType, AdminLevel, OrganizationType, UserStatus};
use trackivity::notifications::{is_dead_endpoint, should_remove_subscription, NotificationType};
use trackivity::organizations::{
    get_activity_requirements, get_all_organizations, initial_status, OrgActivityRequirements,
    Organization,
};
use trackivity::text::{
    contains_text, decimal_text, find_char_from, same_text, starts_with, trim_between,
    trim_start_matches,
};
use trackivity::users::{change_password, ChangePasswordInput, PasswordChange};

#[test]
fn identifiers_are_read_and_written() {
    let text = "a1a2a3a4-b1b2-c1c2-d1d2-d3d4d5d6d7d8";
    let value = 0xa1a2a3a4b1b2c1c2d1d2d3d4d5d6d7d8u128;
    assert_eq!(parse_id(text), Some(value));
    assert_eq!(parse_id("A1A2A3A4B1B2C1C2D1D2D3D4D5D6D7D8"), Some(value));
    assert_eq!(parse_id("{a1a2a3a4-b1b2-c1c2-d1d2-d3d4d5d6d7d8}"), Some(value));
    assert_eq!(parse_id("urn:uuid:a1a2a3a4-b1b2-c1c2-d1d2-d3d4d5d6d7d8"), Some(value));
    assert_eq!(parse_id("a1a2a3a4"), None);
    assert_eq!(parse_id(""), None);
    assert_eq!(id_text(value), text);
    assert_eq!(id_text(0), "00000000-0000-0000-0000-000000000000");
    assert_eq!(parse_id(&id_text(12345)), Some(12345));
    assert_ne!(fresh_id(), fresh_id());
}

#[test]
fn stored_names_of_the_enumerations() {
    assert_eq!(UserStatus::Active.as_str(), "active");
    assert_eq!(UserStatus::from_text("suspended"), Some(UserStatus::Suspended));
    assert_eq!(UserStatus::from_text("Active"), None);
    assert_eq!(AdminLevel::OrganizationAdmin.as_str(), "organization_admin");
    assert_eq!(AdminLevel::from_text("super_admin"), Some(AdminLevel::SuperAdmin));
    assert_eq!(AdminLevel::RegularAdmin.claim_text(), "RegularAdmin");
    assert_eq!(AdminLevel::from_claim_text("SuperAdmin"), Some(AdminLevel::SuperAdmin));
    assert_eq!(AdminLevel::from_claim_text("super_admin"), None);
    assert_eq!(ActivityType::from_text("sports"), Some(ActivityType::Sports));
    assert_eq!(ActivityType::Other.as_str(), "other");
    for s in ["draft", "published", "ongoing", "completed", "cancelled"] {
        assert_eq!(ActivityStatus::from_text(s).unwrap().as_str(), s);
    }
    assert_eq!(ActivityStatus::from_text("paused"), None);
    assert_eq!(OrganizationType::from_text("office"), Some(OrganizationType::Office));
    assert_eq!(OrganizationType::Faculty.as_str(), "faculty");
    assert_eq!(NotificationType::Success.as_str(), "success");
    assert_eq!(NotificationType::Error.as_str(), "error");
}

#[test]
fn text_helpers() {
    assert!(starts_with("Bearer x", "Bearer "));
    assert!(!starts_with("bearer x", "Bearer "));
    assert!(starts_with("abc", ""));
    assert!(!starts_with("ab", "abc"));
    assert!(same_text("กิจกรรม", "กิจกรรม"));
    assert!(!same_text("a", "b"));
    assert_eq!(trim_start_matches("ababc", "ab"), "c");
    assert_eq!(trim_start_matches("abc", ""), "abc");
    assert_eq!(trim_start_matches("aaa", "a"), "");
    assert_eq!(trim_between("  a b \t", 0, 7), "a b");
    assert_eq!(trim_between("x\u{3000}y\u{a0}", 1, 4), "y");
    assert_eq!(trim_between("   ", 0, 3), "");
    assert_eq!(find_char_from("a;b;c", ';', 0), 1);
    assert_eq!(find_char_from("a;b;c", ';', 2), 3);
    assert_eq!(find_char_from("a;b;c", ';', 4), 5);
    assert!(contains_text("request gone away", "gone"));
    assert!(contains_text("abc", ""));
    assert!(!contains_text("ab", "abc"));
    assert_eq!(decimal_text(0), "0");
    assert_eq!(decimal_text(604800), "604800");
    assert_eq!(decimal_text(u64::MAX), "18446744073709551615");
}

#[test]
fn admin_student_numbers() {
    assert_eq!(admin_student_id(0), "A100000000");
    assert_eq!(admin_student_id(899_999_999), "A999999999");
    assert_eq!(admin_student_id(900_000_000), "A100000000");
    assert_eq!(admin_student_id(u32::MAX), format!("A{}", u32::MAX % 900_000_000 + 100_000_000));
    let drawn = fresh_admin_student_id();
    assert_eq!(drawn.len(), 10);
    assert!(drawn.starts_with('A'));
    assert!(drawn[1..].chars().all(|c| c.is_ascii_digit()));
}

#[test]
fn admin_defaults() {
    let mut input = CreateAdminInput {
        email: "a@example.com".to_string(),
        first_name: "A".to_string(),
        last_name: "B".to_string(),
        prefix: None,
        password: None,
        admin_level: "regular_admin".to_string(),
        organization_id: Some("a1a2a3a4-b1b2-c1c2-d1d2-d3d4d5d6d7d8".to_string()),
        permissions: None,
    };
    assert_eq!(initial_password(&input), "123456");
    input.password = Some("better".to_string());
    assert_eq!(initial_password(&input), "better");
    assert_eq!(initial_permissions(None), vec!["ViewDashboard".to_string()]);
    assert_eq!(initial_permissions(Some(vec![])), Vec::<String>::new());
    assert_eq!(optional_id(&input.organization_id), Some(0xa1a2a3a4b1b2c1c2d1d2d3d4d5d6d7d8));
    assert_eq!(optional_id(&Some("x".to_string())), None);
    assert_eq!(optional_id(&None), None);
}

fn organization(id: u128, kind: OrganizationType) -> Organization {
    Organization {
        id,
        name: format!("org {}", id),
        code: format!("O{}", id),
        description: if id % 2 == 0 { Some("even".to_string()) } else { None },
        organization_type: kind,
        status: true,
        created_at: Some(1),
        updated_at: None,
    }
}

#[test]
fn organizations_are_grouped_by_kind_in_order() {
    let all = vec![
        organization(1, OrganizationType::Faculty),
        organization(2, OrganizationType::Office),
        organization(3, OrganizationType::Faculty),
        organization(4, OrganizationType::Office),
        organization(5, OrganizationType::Office),
    ];
    let r = get_all_organizations(all.clone());
    assert_eq!(r.all, all);
    assert_eq!(r.grouped.faculty.iter().map(|o| o.id).collect::<Vec<_>>(), vec![1, 3]);
    assert_eq!(r.grouped.office.iter().map(|o| o.id).collect::<Vec<_>>(), vec![2, 4, 5]);
    assert_eq!(r.grouped.office[0], all[1]);
    let r = get_all_organizations(vec![]);
    assert!(r.all.is_empty() && r.grouped.faculty.is_empty() && r.grouped.office.is_empty());
}

#[test]
fn requirements_default_to_six_and_twelve() {
    let stored = OrgActivityRequirements {
        id: 3,
        organization_id: 8,
        required_faculty_hours: 10,
        required_university_hours: 20,
        created_at: Some(1),
        updated_at: None,
        created_by: 4,
    };
    assert_eq!(get_activity_requirements(8, Some(stored)), stored);
    assert_eq!(
        get_activity_requirements(8, None),
        OrgActivityRequirements {
            id: 0,
            organization_id: 8,
            required_faculty_hours: 6,
            required_university_hours: 12,
            created_at: None,
            updated_at: None,
            created_by: 0,
        }
    );
    assert!(initial_status(None));
    assert!(initial_status(Some(true)));
    assert!(!initial_status(Some(false)));
}

fn no_changes() -> UpdateActivityInput {
    UpdateActivityInput {
        title: None,
        description: None,
        location: None,
        status: None,
        registration_open: None,
        max_participants: None,
        organizer_id: None,
        activity_level: None,
        start_date: None,
        end_date: None,
        start_time_only: None,
        end_time_only: None,
        eligible_organizations: None,
        activity_type: None,
        hours: None,
    }
}

#[test]
fn update_statement_numbers_the_named_columns() {
    assert_eq!(
        update_activity(&no_changes()),
        "UPDATE activities SET updated_at = NOW() WHERE id = $1"
    );
    let mut input = no_changes();
    input.location = Some("Hall".to_string());
    input.activity_level = Some("faculty".to_string());
    input.hours = Some(3);
    assert_eq!(
        update_activity(&input),
        "UPDATE activities SET updated_at = NOW(), location = $2, activity_level = $3::activity_level, hours = $4 WHERE id = $1"
    );
    let all = UpdateActivityInput {
        title: Some("t".to_string()),
        description: Some("d".to_string()),
        location: Some("l".to_string()),
        status: Some(ActivityStatus::Ongoing),
        registration_open: Some(true),
        max_participants: Some(10),
        organizer_id: Some(1),
        activity_level: Some("university".to_string()),
        start_date: Some("2025-01-01".to_string()),
        end_date: Some("2025-01-02".to_string()),
        start_time_only: Some("09:00:00".to_string()),
        end_time_only: Some("17:00:00".to_string()),
        eligible_organizations: Some("[]".to_string()),
        activity_type: Some(ActivityType::Academic),
        hours: Some(8),
    };
    assert_eq!(
        update_activity(&all),
        "UPDATE activities SET updated_at = NOW(), title = $2, description = $3, location = $4, status = $5, registration_open = $6, max_participants = $7, organizer_id = $8, activity_level = $9::activity_level, start_date = $10, end_date = $11, start_time_only = $12, end_time_only = $13, eligible_organizations = $14, activity_type = $15, hours = $16 WHERE id = $1"
    );
}

#[test]
fn joining_an_activity() {
    assert_eq!(
        join_activity(5, InsertOutcome::Done),
        Ok(JoinResponse { message: "Successfully registered for activity".to_string(), participation_id: 5 })
    );
    assert_eq!(
        join_activity(5, InsertOutcome::UniqueViolation),
        Err((409, "Already registered for this activity".to_string()))
    );
    assert_eq!(
        join_activity(5, InsertOutcome::DatabaseError("fk".to_string())),
        Err((500, "Database error: fk".to_string()))
    );
    assert_eq!(
        join_activity(5, InsertOutcome::OtherError("io".to_string())),
        Err((500, "Failed to register: io".to_string()))
    );
    assert_eq!(refuse_create(InsertOutcome::Done, "c", "f: "), None);
    assert_eq!(
        refuse_create(InsertOutcome::UniqueViolation, "Organization code already exists", "f: "),
        Some((409, "Organization code already exists".to_string()))
    );
    assert_eq!(
        refuse_create(InsertOutcome::OtherError("x".to_string()), "c", "Failed to create department: "),
        Some((500, "Failed to create department: x".to_string()))
    );
}

#[test]
fn dead_endpoints() {
    assert!(should_remove_subscription("410 Gone"));
    assert!(should_remove_subscription("Endpoint Not Found"));
    assert!(should_remove_subscription("UNAUTHORIZED"));
    assert!(should_remove_subscription("BadRequest(None)"));
    assert!(should_remove_subscription("status 400"));
    assert!(!should_remove_subscription("timed out"));
    assert!(!should_remove_subscription("500 server error"));
    assert!(is_dead_endpoint("bad request"));
    assert!(!is_dead_endpoint("Gone"));
    assert!(!is_dead_endpoint(""));
}

fn register_input() -> RegisterInput {
    RegisterInput {
        student_id: "65010002".to_string(),
        email: "malee@example.com".to_string(),
        password: "pw".to_string(),
        prefix: "Ms".to_string(),
        first_name: "Malee".to_string(),
        last_name: "Dee".to_string(),
        phone: Some("0800000000".to_string()),
        organization_id: None,
        department_id: Some(3),
    }
}

#[test]
fn registration() {
    let user = register_handler(register_input(), 11, 12).unwrap();
    assert_eq!(user.id, 11);
    assert_eq!(user.qr_secret, "00000000-0000-0000-0000-00000000000c");
    assert_eq!(user.email, "malee@example.com");
    assert_eq!(user.department_id, Some(3));
    assert_ne!(user.password_hash, "pw");
    assert_eq!(check_password("pw", &user.password_hash), PasswordCheck::Accepted);
    assert_eq!(
        register_with(register_input(), Err("no entropy".to_string()), 11, 12),
        Err((500, "Failed to hash password: no entropy".to_string()))
    );
    assert_eq!(
        register_outcome(11, InsertOutcome::Done),
        Ok(RegisterResponse { user_id: 11, message: "User registered successfully".to_string() })
    );
    assert_eq!(
        register_outcome(11, InsertOutcome::UniqueViolation),
        Err((409, "Student ID or Email already exists".to_string()))
    );
    assert_eq!(
        register_outcome(11, InsertOutcome::DatabaseError("x".to_string())),
        Err((500, "Database error: x".to_string()))
    );
    assert_eq!(
        register_outcome(11, InsertOutcome::OtherError("y".to_string())),
        Err((500, "Failed to register: y".to_string()))
    );
}

#[test]
fn password_reset() {
    let input = ResetPasswordInput { token: "t".to_string(), new_password: "fresh".to_string() };
    assert_eq!(reset_password_handler(&input, None, 10), ResetDecision::UnknownToken);
    assert_eq!(reset_password_handler(&input, Some((7, 9)), 10), ResetDecision::Expired);
    match reset_password_handler(&input, Some((7, 10)), 10) {
        ResetDecision::SetPassword { user_id, password_hash } => {
            assert_eq!(user_id, 7);
            assert_eq!(check_password("fresh", &password_hash), PasswordCheck::Accepted);
        }
        other => panic!("no password set: {:?}", other),
    }
    assert_eq!(
        decide_reset(Some((7, 20)), 10, Err("boom".to_string())),
        ResetDecision::HashFailed { message: "Failed to hash password: boom".to_string() }
    );
    assert_eq!(
        decide_reset(Some((7, 20)), 10, Ok("h".to_string())),
        ResetDecision::SetPassword { user_id: 7, password_hash: "h".to_string() }
    );
}

#[test]
fn reset_token_and_mail() {
    assert_eq!(
        make_reset_token(1, 1000),
        Some(("00000000-0000-0000-0000-000000000001".to_string(), 1000 + 1_800_000_000))
    );
    assert_eq!(make_reset_token(1, i64::MAX), None);
    let config = MailConfig { resend_api_key: String::new(), frontend_url: "http://f".to_string() };
    assert_eq!(forgot_password_mail(&config, "a@b.c", "tok"), None);
    let config = MailConfig { resend_api_key: "key".to_string(), frontend_url: "http://f".to_string() };
    let mail = forgot_password_mail(&config, "a@b.c", "tok").unwrap();
    assert_eq!(mail.api_key, "key");
    assert_eq!(mail.to, "a@b.c");
    assert_eq!(mail.from, "Trackivity <onboarding@resend.dev>");
    assert_eq!(mail.subject, "Trackivity - Password Reset");
    assert!(mail.html.starts_with("<h2>Reset Your Password</h2>"));
    assert!(mail.html.contains("<a href=\"http://f/reset-password?token=tok\">Reset Password</a>"));
    assert!(mail.html.ends_with("please ignore this email.</p>"));
}

#[test]
fn changing_a_password() {
    let stored = trackivity::auth::password::hash_password("old").unwrap();
    let input = ChangePasswordInput { current_password: "old".to_string(), new_password: "new".to_string() };
    assert_eq!(change_password(None, &input), PasswordChange::UnknownUser);
    assert_eq!(change_password(Some("junk"), &input), PasswordChange::UnreadableHash);
    let wrong = ChangePasswordInput { current_password: "x".to_string(), new_password: "new".to_string() };
    assert_eq!(change_password(Some(&stored), &wrong), PasswordChange::WrongPassword);
    match change_password(Some(&stored), &input) {
        PasswordChange::SetPassword { password_hash } => {
            assert_eq!(check_password("new", &password_hash), PasswordCheck::Accepted);
            assert_eq!(check_password("old", &password_hash), PasswordCheck::Rejected);
        }
        other => panic!("no password set: {:?}", other),
    }
}

fn admin_row() -> AdminRoleView {
    AdminRoleView {
        id: 1,
        user_id: 2,
        admin_level: None,
        organization_id: Some(3),
        permissions: None,
        is_enabled: None,
        created_at: 1_700_000_000_000_000,
        updated_at: 5,
        user_email: "admin@example.com".to_string(),
        user_prefix: None,
        first_name: "Ada".to_string(),
        last_name: "Byron".to_string(),
        student_id: Some("A123456789".to_string()),
        department_id: None,
        user_created_at: 6,
        user_updated_at: 7,
        organization_name: None,
        organization_code: None,
        organization_status: None,
    }
}

#[test]
fn listed_admins_get_their_defaults() {
    let item = list_admins(admin_row(), 99);
    assert_eq!(item.admin_level, "regular_admin");
    assert_eq!(item.user.role, "admin");
    assert_eq!(item.user.prefix, "Generic");
    assert_eq!(item.user.status, "active");
    assert_eq!(item.user.id, 2);
    assert!(item.is_enabled);
    assert!(!item.is_active);
    assert!(item.permissions.is_empty());
    assert_eq!(item.full_name, Some("Ada Byron".to_string()));
    assert_eq!(item.created_at_formatted, Some("2023-11-14T22:13:20+00:00".to_string()));
    assert_eq!(item.permission_count, Some(0));
    assert_eq!(item.department_count, Some(0));
    assert_eq!(item.days_since_last_login, None);
    let organization = item.organization.unwrap();
    assert_eq!(organization.id, 3);
    assert_eq!(organization.name, "ไม่ระบุ");
    assert_eq!(organization.code, "");
    assert!(organization.status);
    assert_eq!(organization.created_at, Some(99));

    let mut row = admin_row();
    row.admin_level = Some("super_admin".to_string());
    row.organization_id = None;
    row.is_enabled = Some(false);
    row.permissions = Some(vec!["ManageUsers".to_string()]);
    row.user_prefix = Some("Dr".to_string());
    let item = list_organization_admins(row, 99);
    assert_eq!(item.admin_level, "super_admin");
    assert_eq!(item.user.role, "organization_admin");
    assert_eq!(item.user.prefix, "Dr");
    assert!(!item.is_enabled);
    assert_eq!(item.permissions, vec!["ManageUsers".to_string()]);
    assert_eq!(item.organization, None);
    assert_eq!(list_organization_admins(admin_row(), 1).admin_level, "organization_admin");
}

#[test]
fn instants_in_writing() {
    assert_eq!(instant_text(0), Some("1970-01-01T00:00:00+00:00".to_string()));
    assert_eq!(instant_text(1_500_000), Some("1970-01-01T00:00:01.500+00:00".to_string()));
    assert_eq!(instant_text(i64::MAX), None);
}

#[test]
fn reset_links_are_asked_for_in_lower_case() {
    let input = ForgotPasswordInput { email: "Somchai@Example.COM".to_string() };
    assert_eq!(forgot_password_handler(&input), "somchai@example.com");
    assert_eq!(
        forgot_password_answer(),
        "If this email exists, a password reset link has been sent."
    );
}

#[test]
fn a_fresh_identifier_is_a_random_uuid() {
    for _ in 0..32 {
        let id = fresh_id();
        assert_eq!(id & 0xF000_C000_0000_0000_0000u128, 0x4000_8000_0000_0000_0000u128);
        let text = id_text(id);
        assert_eq!(text.len(), 36);
        assert_eq!(text.as_bytes()[14], b'4');
        assert!(b"89ab".contains(&text.as_bytes()[19]));
        assert_eq!(parse_id(&text), Some(id));
    }
}

#[test]
fn registration_stores_the_hash_under_the_salt_drawn() {
    let input = register_input();
    let password = input.password.clone();
    let user = register_handler(input, 5, 6).unwrap();
    assert_eq!(user.id, 5);
    assert_eq!(user.qr_secret, "00000000-0000-0000-0000-000000000006");
    let salt = user.password_hash.split('$').nth(4).unwrap().to_string();
    assert_eq!(hash_with_salt(&password, &salt).unwrap(), user.password_hash);
    assert_eq!(check_password(&password, &user.password_hash), PasswordCheck::Accepted);
}

#[test]
fn a_reset_sets_the_hash_under_the_salt_drawn() {
    let input = ResetPasswordInput { token: "t".to_string(), new_password: "brand-new".to_string() };
    match reset_password_handler(&input, Some((21, 100)), 100) {
        ResetDecision::SetPassword { user_id, password_hash } => {
            assert_eq!(user_id, 21);
            let salt = password_hash.split('$').nth(4).unwrap().to_string();
            assert_eq!(hash_with_salt("brand-new", &salt).unwrap(), password_hash);
        }
        other => panic!("not set: {:?}", other),
    }
}

#[test]
fn a_change_sets_the_hash_under_the_salt_drawn() {
    let stored = trackivity::auth::password::hash_password("old").unwrap();
    let input = ChangePasswordInput {
        current_password: "old".to_string(),
        new_password: "newer".to_string(),
    };
    match change_password(Some(&stored), &input) {
        PasswordChange::SetPassword { password_hash } => {
            let salt = password_hash.split('$').nth(4).unwrap().to_string();
            assert_eq!(hash_with_salt("newer", &salt).unwrap(), password_hash);
            assert_ne!(password_hash, stored);
        }
        other => panic!("not set: {:?}", other),
    }
}
