use std::path::PathBuf;

use vsop::socket::{
    acquire_step, socket_file_name, socket_filename, socket_path_in, AcquireStep, SocketError,
    SocketFile,
};

#[test]
fn socket_name_appends_extension() {
    assert_eq!(socket_file_name("vsop"), "vsop.socket".to_string());
}

#[test]
fn default_path_ends_in_socket_name() {
    match socket_filename("vsop") {
        Ok(p) => {
            assert_eq!(p.file_name().unwrap().to_str().unwrap(), "vsop.socket");
            assert!(p.parent().is_some());
        }
        Err(e) => assert_eq!(e, SocketError::HomeDirectoryNotFound),
    }
}

#[test]
fn new_uses_default_path() {
    match SocketFile::new("vsop") {
        Ok(s) => assert_eq!(s.path(), &socket_filename("vsop").unwrap()),
        Err(e) => assert_eq!(e, SocketError::HomeDirectoryNotFound),
    }
}

#[test]
fn with_path_keeps_path() {
    let p = PathBuf::from("/tmp/some/endpoint.socket");
    let s = SocketFile::with_path(p.clone());
    assert_eq!(s.path(), &p);
}

#[test]
fn error_message() {
    assert_eq!(
        SocketError::HomeDirectoryNotFound.message(),
        "failed to find home directory"
    );
}

#[test]
fn acquire_steps() {
    assert_eq!(acquire_step(false, false), AcquireStep::Bind);
    assert_eq!(acquire_step(true, false), AcquireStep::RemoveStale);
    assert_eq!(acquire_step(true, true), AcquireStep::InUse);
}

#[test]
fn path_in_data_dir() {
    let p = socket_path_in(Some(PathBuf::from("/data/vsop")), "vsop").unwrap();
    assert_eq!(p, PathBuf::from("/data/vsop/vsop.socket"));
}

#[test]
fn path_without_data_dir() {
    assert_eq!(
        socket_path_in(None, "vsop"),
        Err(SocketError::HomeDirectoryNotFound)
    );
}
