use webserver::accounts::Account;
use webserver::errors::ApiError;
use webserver::errors::Reason;
use webserver::session::Session;

fn account() -> Account {
    Account {
        uuid: 9,
        display_name: "Alice".to_string(),
        ldap_dn: "uid=alice".to_string(),
        balance: 12,
        sub: "u1".to_string(),
    }
}

#[test]
fn display_name_is_replaced() {
    let mut account = account();
    assert_eq!(account.set_display_name("Alice Liddell".to_string()), Ok(()));
    assert_eq!(account.display_name, "Alice Liddell");
    assert_eq!(account.set_display_name("n".repeat(255)), Ok(()));
    assert_eq!(account.display_name.len(), 255);
    assert_eq!((account.uuid, account.balance), (9, 12));
}

#[test]
fn display_name_that_does_not_fit_is_turned_down() {
    let mut account = account();
    let turned_down = account.set_display_name("n".repeat(256));
    assert_eq!(turned_down, Err(ApiError::ServerError(Reason::NameTooLong)));
    assert_eq!(account.display_name, "Alice");
}

#[test]
fn logging_in_and_out_marks_the_session() {
    let mut session = Session::new();
    account().set_logged_in(&mut session);
    assert_eq!(session.current_account, Some(9));
    assert_eq!(Account::set_logged_out(&mut session), Some(9));
    assert_eq!(session.current_account, None);
    assert_eq!(Account::set_logged_out(&mut session), None);
    assert_eq!(session.current_account, None);
}
