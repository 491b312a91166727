use reach::setup::{
    choose_display_name, choose_email, choose_password, confirms, setup_user,
    setup_user_with_args, SetupError,
};

#[test]
fn yes_is_y_or_yes_in_any_case() {
    assert!(confirms("y"));
    assert!(confirms("Y"));
    assert!(confirms(" yes \n"));
    assert!(confirms("YeS"));
    assert!(!confirms(""));
    assert!(!confirms("n"));
    assert!(!confirms("no"));
    assert!(!confirms("yess"));
    assert!(!confirms("y e s"));
}

#[test]
fn empty_answers_are_made_up() {
    let id: u128 = 0x1234_abcd_5678_9abc_def0_0000_0000_0001;
    assert_eq!(choose_email("ann@example.com", id), "ann@example.com");
    assert_eq!(choose_email("", id), "user-1234abcd");
    assert_eq!(choose_password("pw", id), "pw");
    assert_eq!(choose_password("", id), "secure-1234abcd-5678-9a");
    assert_eq!(choose_display_name("Ann", "ann@example.com"), "Ann");
    assert_eq!(choose_display_name("", "ann@example.com"), "ann");
    assert_eq!(choose_display_name("", "user-1234abcd"), "user-1234abcd");
    assert_eq!(choose_display_name("", "@example.com"), "");
    assert_eq!(choose_display_name("", ""), "");
}

#[test]
fn setup_from_answers() {
    let config = setup_user(" ann@example.com \n", " secret\n", "\n");
    assert_eq!(config.identity.email, "ann@example.com");
    assert!(config.identity.verify_password("secret"));
    assert!(!config.identity.verify_password(" secret\n"));
    assert_eq!(config.identity.display_name, Some("ann".to_string()));
    assert_eq!(config.default_port, 5000);
    assert_eq!(config.max_peers, 10);
    assert!(!config.auto_accept_connections);
    assert_eq!(config.log_level, "info");
    assert!(config.identity.get_private_key_bytes().is_ok());

    let named = setup_user("bob@example.com", "pw", "  Bob the Builder ");
    assert_eq!(named.identity.display_name, Some("Bob the Builder".to_string()));

    let blank = setup_user("", "", "");
    assert!(blank.identity.email.starts_with("user-"));
    assert_eq!(blank.identity.email.len(), 13);
    assert_eq!(blank.identity.display_name, Some(blank.identity.email.clone()));
    assert!(!blank.identity.verify_password(""));
    let other = setup_user("", "", "");
    assert_ne!(other.identity.email, blank.identity.email);
}

#[test]
fn setup_from_arguments_wants_email_and_password() {
    assert_eq!(
        setup_user_with_args(String::new(), "Ann".to_string(), "pw".to_string()).unwrap_err(),
        SetupError::EmptyEmail
    );
    assert_eq!(
        setup_user_with_args(String::new(), "Ann".to_string(), String::new()).unwrap_err(),
        SetupError::EmptyEmail
    );
    assert_eq!(
        setup_user_with_args("a@b.c".to_string(), "Ann".to_string(), String::new()).unwrap_err(),
        SetupError::EmptyPassword
    );
    let config =
        setup_user_with_args("a@b.c".to_string(), "Ann".to_string(), "pw".to_string()).unwrap();
    assert_eq!(config.identity.email, "a@b.c");
    assert_eq!(config.identity.display_name, Some("Ann".to_string()));
    assert!(config.identity.verify_password("pw"));
    assert_eq!(config.default_port, 5000);
    let unnamed =
        setup_user_with_args("a@b.c".to_string(), String::new(), "pw".to_string()).unwrap();
    assert_eq!(unnamed.identity.display_name, None);
    assert!(unnamed.identity.get_display_name().starts_with("User_"));
}
