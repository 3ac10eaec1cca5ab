use cdrs_async::Authenticator;
use cdrs_async::NoneAuthenticator;
use cdrs_async::PasswordAuthenticator;

fn authenticator_tester(_authenticator: Box<Authenticator>) {}

#[test]
fn test_password_authenticator_trait_impl() {
    let authenticator = PasswordAuthenticator::new("a", "a");
    let _ = authenticator_tester(Box::new(authenticator.into()));
}

#[test]
fn test_password_authenticator_new() {
    PasswordAuthenticator::new("foo", "bar");
}

#[test]
fn test_password_authenticator_get_cassandra_name() {
    let auth: Authenticator = PasswordAuthenticator::new("foo", "bar").into();
    assert_eq!(
        auth.get_cassandra_name(),
        Some("org.apache.cassandra.auth.PasswordAuthenticator".into())
    );
}

#[test]
fn test_password_authenticator_get_auth_token() {
    let auth: Authenticator = PasswordAuthenticator::new("foo", "bar").into();
    let mut expected_token = vec![0];
    expected_token.extend_from_slice("foo".as_bytes());
    expected_token.push(0);
    expected_token.extend_from_slice("bar".as_bytes());

    assert_eq!(auth.get_auth_token(), expected_token);
}

#[test]
fn test_authenticator_none_get_cassandra_name() {
    let auth: Authenticator = (NoneAuthenticator {}).into();
    assert_eq!(auth.get_cassandra_name(), None);
    assert_eq!(auth.get_auth_token(), vec![0]);
}
