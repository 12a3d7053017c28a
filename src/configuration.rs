use crate::error::ErrorKind;
use vstd::prelude::*;

verus! {

/// Remote endpoint, credentials and the local directory to watch.
#[derive(Debug)]
pub struct Configuration {
    pub address: String,
    pub username: String,
    pub password: String,
    pub local_path: String,
}

/// The four fields of a configuration, as character sequences.
pub struct ConfigurationView {
    pub address: Seq<char>,
    pub username: Seq<char>,
    pub password: Seq<char>,
    pub local_path: Seq<char>,
}

impl View for Configuration {
    type V = ConfigurationView;

    open spec fn view(&self) -> ConfigurationView {
        ConfigurationView {
            address: self.address@,
            username: self.username@,
            password: self.password@,
            local_path: self.local_path@,
        }
    }
}

/// The key/value pairs that decoding the bytes as a YAML mapping from strings
/// to strings gives, in ascending key order; `None` when decoding fails.
pub uninterp spec fn yaml_string_entries(bytes: Seq<u8>) -> Option<Seq<(Seq<char>, Seq<char>)>>;

pub open spec fn entry_views(entries: Seq<(String, String)>) -> Seq<(Seq<char>, Seq<char>)> {
    entries.map_values(|e: (String, String)| (e.0@, e.1@))
}

/// The value stored under `key`, taken from the first entry that has it.
pub open spec fn lookup(entries: Seq<(Seq<char>, Seq<char>)>, key: Seq<char>) -> Option<Seq<char>>
    decreases entries.len(),
{
    if entries.len() == 0 {
        None
    } else if entries[0].0 == key {
        Some(entries[0].1)
    } else {
        lookup(entries.drop_first(), key)
    }
}

/// The configuration that a decoded document describes: present exactly when
/// all four fields are, each taken verbatim.
pub open spec fn decoded_configuration(entries: Seq<(Seq<char>, Seq<char>)>) -> Option<ConfigurationView> {
    let address = lookup(entries, "address"@);
    let username = lookup(entries, "username"@);
    let password = lookup(entries, "password"@);
    let local_path = lookup(entries, "local_path"@);
    if address is Some && username is Some && password is Some && local_path is Some {
        Some(ConfigurationView {
            address: address.unwrap(),
            username: username.unwrap(),
            password: password.unwrap(),
            local_path: local_path.unwrap(),
        })
    } else {
        None
    }
}

/// What loading yields for the file's bytes, `None` when it could not be read.
pub open spec fn configuration_outcome(contents: Option<Seq<u8>>) -> Result<ConfigurationView, ErrorKind> {
    match contents {
        None => Err(ErrorKind::ConfigNotFound),
        Some(bytes) => match yaml_string_entries(bytes) {
            None => Err(ErrorKind::ConfigParseError),
            Some(entries) => match decoded_configuration(entries) {
                Some(c) => Ok(c),
                None => Err(ErrorKind::ConfigParseError),
            },
        },
    }
}

pub open spec fn result_view(r: Result<Configuration, ErrorKind>) -> Result<ConfigurationView, ErrorKind> {
    match r {
        Ok(c) => Ok(c@),
        Err(e) => Err(e),
    }
}

#[verifier::external_type_specification]
#[verifier::external_body]
pub struct ExYamlError(serde_yaml::Error);

/// Relies on serde_yaml::from_slice decoding the bytes as a
/// `BTreeMap<String, String>`: the outcome depends on the bytes alone, and the
/// decoded map is walked in ascending key order.
#[verifier::external_body]
fn decode_string_map(bytes: &[u8]) -> (r: Result<Vec<(String, String)>, serde_yaml::Error>)
    ensures
        r is Ok <==> yaml_string_entries(bytes@) is Some,
        r matches Ok(v) ==> entry_views(v@) == yaml_string_entries(bytes@).unwrap(),
{
    serde_yaml::from_slice::<std::collections::BTreeMap<String, String>>(bytes).map(
        |m| m.into_iter().collect(),
    )
}

/// Finds the value stored under `key`.
pub fn find_value(entries: &Vec<(String, String)>, key: &String) -> (r: Option<String>)
    ensures
        match r {
            Some(v) => lookup(entry_views(entries@), key@) == Some(v@),
            None => lookup(entry_views(entries@), key@) is None,
        },
{
    let ghost all = entry_views(entries@);
    let mut i: usize = 0;
    assert(all.skip(0) =~= all);
    while i < entries.len()
        invariant
            0 <= i <= entries.len(),
            all == entry_views(entries@),
            lookup(all, key@) == lookup(all.skip(i as int), key@),
        decreases entries.len() - i,
    {
        let ghost rest = all.skip(i as int);
        assert(rest[0] == (entries@[i as int].0@, entries@[i as int].1@));
        if entries[i].0 == *key {
            return Some(entries[i].1.clone());
        }
        assert(rest.drop_first() =~= all.skip(i + 1));
        i = i + 1;
    }
    assert(all.skip(i as int).len() == 0);
    None
}

/// Builds a configuration from decoded entries; fails with
/// `ConfigParseError` when any of the four fields is missing.
pub fn configuration_from_entries(entries: &Vec<(String, String)>) -> (r: Result<Configuration, ErrorKind>)
    ensures
        result_view(r) == match decoded_configuration(entry_views(entries@)) {
            Some(c) => Ok(c),
            None => Err(ErrorKind::ConfigParseError),
        },
{
    let address = find_value(entries, &"address".to_owned());
    let username = find_value(entries, &"username".to_owned());
    let password = find_value(entries, &"password".to_owned());
    let local_path = find_value(entries, &"local_path".to_owned());
    match (address, username, password, local_path) {
        (Some(address), Some(username), Some(password), Some(local_path)) => {
            let c = Configuration { address, username, password, local_path };
            assert(c@ == decoded_configuration(entry_views(entries@)).unwrap());
            Ok(c)
        },
        _ => Err(ErrorKind::ConfigParseError),
    }
}

/// Decodes a configuration from the bytes of a YAML document.
pub fn parse_configuration(bytes: &[u8]) -> (r: Result<Configuration, ErrorKind>)
    ensures
        result_view(r) == configuration_outcome(Some(bytes@)),
{
    match decode_string_map(bytes) {
        Ok(entries) => configuration_from_entries(&entries),
        Err(_) => Err(ErrorKind::ConfigParseError),
    }
}

/// Decodes a configuration from what reading the file gave: `None` when the
/// file could not be read.
pub fn configuration_from_contents(contents: Option<Vec<u8>>) -> (r: Result<Configuration, ErrorKind>)
    ensures
        result_view(r) == configuration_outcome(
            match contents {
                Some(b) => Some(b@),
                None => None,
            },
        ),
{
    match contents {
        Some(bytes) => parse_configuration(bytes.as_slice()),
        None => Err(ErrorKind::ConfigNotFound),
    }
}

/// A document that decodes and holds the four fields loads to a configuration
/// whose fields are the document's values, verbatim.
pub proof fn lemma_complete_document_loads_verbatim(bytes: Seq<u8>)
    requires
        yaml_string_entries(bytes) is Some,
        lookup(yaml_string_entries(bytes).unwrap(), "address"@) is Some,
        lookup(yaml_string_entries(bytes).unwrap(), "username"@) is Some,
        lookup(yaml_string_entries(bytes).unwrap(), "password"@) is Some,
        lookup(yaml_string_entries(bytes).unwrap(), "local_path"@) is Some,
    ensures
        configuration_outcome(Some(bytes)) matches Ok(c) && {
            let entries = yaml_string_entries(bytes).unwrap();
            &&& Some(c.address) == lookup(entries, "address"@)
            &&& Some(c.username) == lookup(entries, "username"@)
            &&& Some(c.password) == lookup(entries, "password"@)
            &&& Some(c.local_path) == lookup(entries, "local_path"@)
        },
{
}

/// A file that cannot be read gives `ConfigNotFound`; bytes that do not
/// decode, or a document that lacks one of the four fields, give
/// `ConfigParseError`. No configuration is returned in either case.
pub proof fn lemma_incomplete_input_fails(contents: Option<Seq<u8>>)
    requires
        contents is None || yaml_string_entries(contents.unwrap()) is None || {
            let entries = yaml_string_entries(contents.unwrap()).unwrap();
            ||| lookup(entries, "address"@) is None
            ||| lookup(entries, "username"@) is None
            ||| lookup(entries, "password"@) is None
            ||| lookup(entries, "local_path"@) is None
        },
    ensures
        contents is None ==> configuration_outcome(contents) == Err::<ConfigurationView, ErrorKind>(
            ErrorKind::ConfigNotFound,
        ),
        contents is Some ==> configuration_outcome(contents) == Err::<ConfigurationView, ErrorKind>(
            ErrorKind::ConfigParseError,
        ),
{
}

} // verus!
