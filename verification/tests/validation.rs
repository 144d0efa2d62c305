use query_gateway::security::validate_input;

#[test]
fn plain_select_is_allowed() {
    assert!(validate_input("select * from x"));
}

#[test]
fn mixed_case_delete_is_blocked() {
    assert!(!validate_input("please Delete my account"));
}

#[test]
fn empty_input_is_allowed() {
    assert!(validate_input(""));
}

#[test]
fn each_keyword_is_blocked_lower_case() {
    assert!(!validate_input("drop table users"));
    assert!(!validate_input("delete from users"));
    assert!(!validate_input("insert into users"));
    assert!(!validate_input("update users set x"));
}

#[test]
fn each_keyword_is_blocked_upper_case() {
    assert!(!validate_input("DROP TABLE users"));
    assert!(!validate_input("DELETE FROM users"));
    assert!(!validate_input("INSERT INTO users"));
    assert!(!validate_input("UPDATE users SET x"));
}

#[test]
fn keyword_blocked_at_any_position() {
    assert!(!validate_input("dRoP"));
    assert!(!validate_input("xxdropxx"));
    assert!(!validate_input("the last word is UpDaTe"));
}

#[test]
fn keyword_inside_longer_word_is_blocked() {
    // The policy is a substring match, not a word match.
    assert!(!validate_input("show me the updated rows"));
}

#[test]
fn split_keyword_is_allowed() {
    assert!(validate_input("d rop de lete in sert up date"));
}

#[test]
fn unrelated_text_is_allowed() {
    assert!(validate_input("how many customers signed up last month?"));
    assert!(validate_input("SELECT name FROM customers WHERE city = 'Porto'"));
}
