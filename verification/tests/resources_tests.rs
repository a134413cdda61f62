use render_gl::resources::{Error, Resources};

#[test]
fn asset_root_is_joined_onto_exe_directory() {
    let exe = b"/usr/local/bin/game".to_vec();
    let rel = b"assets".to_vec();
    let res = Resources::from_relative_exe_path(&exe, &rel).unwrap();
    assert_eq!(res.root_path(), &b"/usr/local/bin/assets".to_vec());
}

#[test]
fn exe_in_root_directory_joins_cleanly() {
    let exe = b"/game".to_vec();
    let rel = b"shaders/triangle".to_vec();
    let res = Resources::from_relative_exe_path(&exe, &rel).unwrap();
    assert_eq!(res.root_path(), &b"/shaders/triangle".to_vec());
}

#[test]
fn exe_path_without_directory_fails() {
    let exe = b"game".to_vec();
    let rel = b"assets".to_vec();
    let r = Resources::from_relative_exe_path(&exe, &rel);
    assert!(matches!(r, Err(Error::FaliedToGetExePath)));
}

#[test]
fn io_errors_convert_into_the_io_variant() {
    let io_err = std::io::Error::new(std::io::ErrorKind::NotFound, "no such file");
    let err = Error::from(io_err);
    assert!(matches!(err, Error::Io(_)));
}
