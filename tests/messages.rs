use captcha_gate::{get_env_error_message, get_server_message, get_user_send_error};

#[test]
fn server_name_is_filled_in() {
    assert_eq!(
        get_server_message("Welcome to SERVER_NAME! Solve the captcha.", "Rustaceans"),
        "Welcome to Rustaceans! Solve the captcha."
    );
}

#[test]
fn every_server_name_mark_is_filled_in() {
    assert_eq!(get_server_message("SERVER_NAME/SERVER_NAME", "x"), "x/x");
}

#[test]
fn template_without_mark_is_unchanged() {
    assert_eq!(get_server_message("Wrong answer, try again", "x"), "Wrong answer, try again");
    assert_eq!(get_server_message("", "x"), "");
}

#[test]
fn partial_mark_is_left_alone() {
    assert_eq!(get_server_message("SERVER_NAM SERVER_NAME", "Z"), "SERVER_NAM Z");
}

#[test]
fn env_error_names_the_setting() {
    assert_eq!(
        get_env_error_message("Missing setting ENV_VAR", "ROLE_ID"),
        Some("Missing setting ROLE_ID".to_string())
    );
}

#[test]
fn env_error_without_mark_is_none() {
    assert_eq!(get_env_error_message("Missing setting", "ROLE_ID"), None);
}

#[test]
fn user_send_error_names_the_member() {
    assert_eq!(
        get_user_send_error("<@USERID> has closed direct messages", 1234567890),
        Some("<@1234567890> has closed direct messages".to_string())
    );
    assert_eq!(get_user_send_error("USERID", 0), Some("0".to_string()));
    assert_eq!(
        get_user_send_error("USERID", u64::MAX),
        Some("18446744073709551615".to_string())
    );
}

#[test]
fn user_send_error_without_mark_is_none() {
    assert_eq!(get_user_send_error("user cannot be reached", 42), None);
}
