use thin_pool_docker_volume::mountpoint::{mountpoint, text_of};

#[test]
fn the_mountpoint_lies_inside_the_directory() {
    assert_eq!(mountpoint(&b"/tmp/.tmpab".to_vec()), b"/tmp/.tmpab/mount".to_vec());
    assert_eq!(mountpoint(&b"/tmp/".to_vec()), b"/tmp/mount".to_vec());
    assert_eq!(mountpoint(&Vec::new()), b"mount".to_vec());
}

#[test]
fn the_mountpoint_agrees_with_path_join() {
    for dir in ["", "/", "a", "/a/b", "/a/b/", "/\u{e9}"] {
        let joined = std::path::Path::new(dir).join("mount");
        assert_eq!(text_of(mountpoint(&dir.as_bytes().to_vec())).as_deref(), joined.to_str());
    }
}

#[test]
fn only_text_has_a_text() {
    assert_eq!(text_of(b"/a".to_vec()), Some("/a".to_string()));
    assert_eq!(text_of("/\u{e9}".as_bytes().to_vec()), Some("/\u{e9}".to_string()));
    assert_eq!(text_of(vec![0x2f, 0xff]), None);
}
