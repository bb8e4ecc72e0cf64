use hyprsunset_overdrive::client::{
    get_hyprsunset_socket_path, get_lock_path, EnvironmentError, HyprsunsetClient, Transmission,
    READ_TIMEOUT_MILLIS,
};
use hyprsunset_overdrive::command::FilterCommand;

#[test]
fn socket_path_lies_below_the_runtime_directory() {
    assert_eq!(
        get_hyprsunset_socket_path(Some("abc123"), Some("/run/user/1000")),
        Ok(String::from("/run/user/1000/hypr/abc123/.hyprsunset.sock"))
    );
}

#[test]
fn socket_path_takes_its_parts_as_they_are() {
    assert_eq!(
        get_hyprsunset_socket_path(Some(""), Some("")),
        Ok(String::from("/hypr//.hyprsunset.sock"))
    );
    assert_eq!(
        get_hyprsunset_socket_path(Some("a/b"), Some("/tmp/")),
        Ok(String::from("/tmp//hypr/a/b/.hyprsunset.sock"))
    );
}

#[test]
fn missing_instance_signature_is_reported_first() {
    assert_eq!(
        get_hyprsunset_socket_path(None, Some("/run/user/1000")),
        Err(EnvironmentError::InstanceSignatureNotSet)
    );
    assert_eq!(
        get_hyprsunset_socket_path(None, None),
        Err(EnvironmentError::InstanceSignatureNotSet)
    );
}

#[test]
fn missing_runtime_directory_is_reported() {
    assert_eq!(
        get_hyprsunset_socket_path(Some("abc123"), None),
        Err(EnvironmentError::RuntimeDirNotSet)
    );
}

#[test]
fn lock_path_lies_in_the_runtime_directory() {
    assert_eq!(
        get_lock_path("/run/user/1000"),
        "/run/user/1000/hyprsunset-overdrive.lock"
    );
    assert_eq!(get_lock_path(""), "/hyprsunset-overdrive.lock");
}

#[test]
fn enable_sends_the_temperature() {
    let mut client = HyprsunsetClient::new(String::from("/run/hypr/x/.hyprsunset.sock"));
    assert_eq!(
        client.enable(3000),
        Transmission {
            sock_path: String::from("/run/hypr/x/.hyprsunset.sock"),
            command: String::from("temperature 3000"),
            read_timeout_millis: 500,
        }
    );
}

#[test]
fn disable_sends_identity() {
    let mut client = HyprsunsetClient::new(String::from("/run/hypr/x/.hyprsunset.sock"));
    assert_eq!(
        client.disable(),
        Transmission {
            sock_path: String::from("/run/hypr/x/.hyprsunset.sock"),
            command: String::from("identity"),
            read_timeout_millis: READ_TIMEOUT_MILLIS,
        }
    );
}

#[test]
fn send_command_sends_the_command_as_it_stands() {
    let mut client = HyprsunsetClient::new(String::from("/s"));
    let transmission = client.send_command("gamma 80");
    assert_eq!(transmission.sock_path, "/s");
    assert_eq!(transmission.command, "gamma 80");
    assert_eq!(transmission.command.as_bytes(), b"gamma 80");
    assert_eq!(transmission.read_timeout_millis, 500);
    assert_eq!(client.send_command("").command, "");
}

#[test]
fn apply_spells_each_command() {
    let mut client = HyprsunsetClient::new(String::from("/s"));
    assert_eq!(
        client.apply(FilterCommand::Enable(2500)).command,
        "temperature 2500"
    );
    assert_eq!(client.apply(FilterCommand::Disable).command, "identity");
}

#[test]
fn a_command_does_not_depend_on_those_before_it() {
    let mut used = HyprsunsetClient::new(String::from("/s"));
    let _ = used.enable(1000);
    let _ = used.disable();
    let _ = used.send_command("anything");
    let mut fresh = HyprsunsetClient::new(String::from("/s"));
    assert_eq!(used.enable(3000), fresh.enable(3000));
    assert_eq!(used.disable(), fresh.disable());
}
