use impulse_voice::paths::{
    data_home, default_model_path, default_socket_path, display_path, join_path,
    plan_socket_path, worker_python_path, PathError,
};

fn bytes(s: &str) -> Option<Vec<u8>> {
    Some(s.as_bytes().to_vec())
}

#[test]
fn joining_follows_unix_paths() {
    assert_eq!(join_path(b"/a", b"b"), b"/a/b".to_vec());
    assert_eq!(join_path(b"/a/", b"b"), b"/a/b".to_vec());
    assert_eq!(join_path(b"/a", b"/b"), b"/b".to_vec());
    assert_eq!(join_path(b"", b"b"), b"b".to_vec());
}

#[test]
fn data_home_prefers_xdg() {
    assert_eq!(data_home(bytes("/xdg"), bytes("/home/u")), Ok(b"/xdg".to_vec()));
    assert_eq!(data_home(None, bytes("/home/u")), Ok(b"/home/u/.local/share".to_vec()));
    assert_eq!(data_home(None, None), Err(PathError::HomeUndefined));
    assert_eq!(PathError::HomeUndefined.message(), "HOME is not defined");
}

#[test]
fn default_paths() {
    assert_eq!(
        default_model_path(None, bytes("/home/u")),
        Ok(b"/home/u/.local/share/impulse-voice/models/parakeet-tdt-0.6b-v3-int8".to_vec())
    );
    assert_eq!(default_model_path(None, None), Err(PathError::HomeUndefined));
    assert_eq!(
        default_socket_path(bytes("/run/user/1000")),
        Ok(b"/run/user/1000/impulse-voice.sock".to_vec())
    );
    let err = default_socket_path(None).err().unwrap();
    assert_eq!(err.message(), "XDG_RUNTIME_DIR is not defined");
}

#[test]
fn worker_python_path_needs_a_data_home() {
    assert_eq!(
        worker_python_path(None, bytes("/d"), None),
        Ok(b"/d/impulse-voice/photon-venv/bin/python".to_vec())
    );
    assert_eq!(worker_python_path(bytes("/usr/bin/python3"), bytes("/d"), None), Ok(b"/usr/bin/python3".to_vec()));
    assert_eq!(
        worker_python_path(bytes("/usr/bin/python3"), None, None),
        Err(PathError::HomeUndefined)
    );
}

#[test]
fn paths_display_lossily() {
    assert_eq!(display_path(b"/tmp/mod\xc3\xa8le"), "/tmp/mod\u{e8}le");
    assert_eq!(display_path(b"/tmp/\xff"), "/tmp/\u{fffd}");
}

#[test]
fn only_stale_sockets_are_replaced() {
    assert!(matches!(plan_socket_path(b"/s", false, false), Ok(false)));
    assert!(matches!(plan_socket_path(b"/s", true, true), Ok(true)));
    let err = plan_socket_path(b"/run/x", true, false).err().unwrap();
    assert_eq!(err.message(), "refusing to replace non-socket path at /run/x");
}
