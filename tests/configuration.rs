use nextcloud_upload_daemon::configuration::{
    configuration_from_contents, configuration_from_entries, find_value, parse_configuration,
};
use nextcloud_upload_daemon::error::ErrorKind;

const CREDENTIALS: &str = "address: https://www.some_nextcloud_server.de\n\
username: IhrBenutzername\n\
password: IhrPasswort\n\
local_path: /tmp/test_nextcloud_upload_daemon\n";

const README: &str = "# nextcloud upload daemon\n\
\n\
Watches a local directory and uploads every file that was written\n\
and closed to a remote server\n";

fn entries(pairs: &[(&str, &str)]) -> Vec<(String, String)> {
    pairs.iter().map(|(k, v)| (k.to_string(), v.to_string())).collect()
}

#[test]
fn load_configuration_success() {
    let scrape_config_result = configuration_from_contents(Some(CREDENTIALS.as_bytes().to_vec()));
    assert!(
        scrape_config_result.is_ok(),
        "Error loading config file login_credentials.yaml"
    );
    let scrape_config = scrape_config_result.expect("Here should be dragons...");
    assert_eq!(scrape_config.address, "https://www.some_nextcloud_server.de");
    assert_eq!(scrape_config.username, "IhrBenutzername");
    assert_eq!(scrape_config.password, "IhrPasswort");
    assert_eq!(scrape_config.local_path, "/tmp/test_nextcloud_upload_daemon");
}

#[test]
fn load_configuration_failed_no_file() {
    let scrape_config_result = configuration_from_contents(None);
    assert!(
        scrape_config_result.is_err(),
        "Found valid file with name BAD_FILENAME.BLABLABLA?!?!?"
    );
}

#[test]
fn load_configuration_failed_invalid_file() {
    let scrape_config_result = configuration_from_contents(Some(README.as_bytes().to_vec()));
    assert!(
        scrape_config_result.is_err(),
        "Found valid file with name README.md?!?!?"
    );
}

#[test]
fn cloud_example_loads_its_four_values() {
    let text = "address: https://cloud.example.com\nusername: alice\npassword: secret\nlocal_path: /tmp/watched\n";
    let c = parse_configuration(text.as_bytes()).unwrap();
    assert_eq!(c.address, "https://cloud.example.com");
    assert_eq!(c.username, "alice");
    assert_eq!(c.password, "secret");
    assert_eq!(c.local_path, "/tmp/watched");
}

#[test]
fn missing_file_is_config_not_found() {
    assert_eq!(configuration_from_contents(None).unwrap_err(), ErrorKind::ConfigNotFound);
}

#[test]
fn binary_content_is_config_parse_error() {
    let bytes = vec![0xffu8, 0xfe, 0x00, 0x9c, 0x01, 0x80, 0x7f, 0xc3];
    assert_eq!(
        configuration_from_contents(Some(bytes)).unwrap_err(),
        ErrorKind::ConfigParseError
    );
}

#[test]
fn missing_field_is_config_parse_error() {
    let text = "address: https://cloud.example.com\nusername: alice\nlocal_path: /tmp/watched\n";
    assert_eq!(
        parse_configuration(text.as_bytes()).unwrap_err(),
        ErrorKind::ConfigParseError
    );
}

#[test]
fn empty_document_is_config_parse_error() {
    assert_eq!(parse_configuration(b"").unwrap_err(), ErrorKind::ConfigParseError);
}

#[test]
fn extra_fields_are_ignored() {
    let text = "local_path: /srv/data\nextra: 1\npassword: pw\nusername: bob\naddress: https://h\n";
    let c = parse_configuration(text.as_bytes()).unwrap();
    assert_eq!(c.address, "https://h");
    assert_eq!(c.username, "bob");
    assert_eq!(c.password, "pw");
    assert_eq!(c.local_path, "/srv/data");
}

#[test]
fn scalar_values_are_taken_verbatim() {
    let text = "address: 'https://h:8443/dav'\nusername: 1234\npassword: \"a b: c\"\nlocal_path: ./rel\n";
    let c = parse_configuration(text.as_bytes()).unwrap();
    assert_eq!(c.address, "https://h:8443/dav");
    assert_eq!(c.username, "1234");
    assert_eq!(c.password, "a b: c");
    assert_eq!(c.local_path, "./rel");
}

#[test]
fn find_value_takes_the_first_match() {
    let e = entries(&[("a", "1"), ("b", "2"), ("b", "3")]);
    assert_eq!(find_value(&e, &"b".to_string()), Some("2".to_string()));
    assert_eq!(find_value(&e, &"c".to_string()), None);
    assert_eq!(find_value(&Vec::new(), &"a".to_string()), None);
}

#[test]
fn entries_build_a_configuration_only_when_complete() {
    let full = entries(&[
        ("address", "x"),
        ("local_path", "l"),
        ("password", "p"),
        ("username", "u"),
    ]);
    let c = configuration_from_entries(&full).unwrap();
    assert_eq!(
        (c.address.as_str(), c.username.as_str(), c.password.as_str(), c.local_path.as_str()),
        ("x", "u", "p", "l")
    );
    let partial = entries(&[("address", "x"), ("password", "p"), ("username", "u")]);
    assert_eq!(
        configuration_from_entries(&partial).unwrap_err(),
        ErrorKind::ConfigParseError
    );
}
