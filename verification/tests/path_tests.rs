//! Path encoding, resolution and the move-aside naming on concrete paths.

use pixivdwn::paths::{
    path_is_absolute, path_join, resolve_stored, move_aside_name, filename_of_url,
    PathResolveError,
};
use pixivdwn::util::{encode_written_path, download_result, DatabasePathFormat};

#[test]
fn join_and_absolute() {
    assert!(path_is_absolute("/a/b"));
    assert!(!path_is_absolute("a/b"));
    assert!(!path_is_absolute(""));
    assert_eq!(path_join("/base", "file.png"), "/base/file.png");
    assert_eq!(path_join("/base/", "file.png"), "/base/file.png");
    assert_eq!(path_join("", "file.png"), "file.png");
}

#[test]
fn encoding_round_trip_inline() {
    let base = "/archive/images";
    let canonical = "/archive/images/77_p0.png";
    let stored = encode_written_path(DatabasePathFormat::Inline, "77_p0.png", "/archive/images/77_p0.png", canonical);
    assert_eq!(stored, "77_p0.png");
    let resolved = resolve_stored(&stored, Some(base)).unwrap();
    assert_eq!(resolved, "/archive/images/77_p0.png");
}

#[test]
fn encoding_round_trip_as_is() {
    let base = "/archive/images";
    let final_path = path_join(base, "77_p0.png");
    let stored = encode_written_path(DatabasePathFormat::AsIs, "77_p0.png", &final_path, "/archive/images/77_p0.png");
    assert_eq!(stored, "/archive/images/77_p0.png");
    let resolved = resolve_stored(&stored, Some(base)).unwrap();
    assert_eq!(resolved, final_path);
}

#[test]
fn encoding_round_trip_absolute() {
    let base = "/archive/images";
    let canonical = "/real/disk/images/77_p0.png";
    let stored = encode_written_path(DatabasePathFormat::Absolute, "77_p0.png", "/archive/images/77_p0.png", canonical);
    assert_eq!(stored, canonical);
    // an absolute stored path resolves to itself, even against another base
    let resolved = resolve_stored(&stored, Some(base)).unwrap();
    assert_eq!(resolved, canonical);
}

#[test]
fn relative_path_needs_a_base() {
    assert_eq!(resolve_stored("x.png", None), Err(PathResolveError::MissingBaseDir));
    assert_eq!(resolve_stored("/abs/x.png", None), Ok("/abs/x.png".to_string()));
}

#[test]
fn download_result_assembles_both_paths() {
    let r = download_result(
        DatabasePathFormat::Inline,
        "/archive/images",
        "9_p1.png",
        "/archive/images/9_p1.png",
        4096,
    );
    assert_eq!(r.final_path, "/archive/images/9_p1.png");
    assert_eq!(r.written_path, "9_p1.png");
    assert_eq!(r.size, 4096);
}

#[test]
fn move_aside_inserts_digest_before_extension() {
    let digest = vec![0x00u8, 0x11, 0xff];
    assert_eq!(move_aside_name("/d/img.png", &digest), "/d/img.0011ff.png");
    // a file without an extension gets the digest appended
    assert_eq!(move_aside_name("/d/img", &digest), "/d/img.0011ff");
    // a dot in a directory name is not an extension
    assert_eq!(move_aside_name("/d.ir/img", &digest), "/d.ir/img.0011ff");
    // multiple extensions: the digest lands before the last one
    assert_eq!(move_aside_name("/d/a.tar.gz", &digest), "/d/a.tar.0011ff.gz");
}

#[test]
fn filenames_from_urls() {
    assert_eq!(filename_of_url("https://x.example/img/123_p0.png"), "123_p0.png");
    assert_eq!(filename_of_url("plain.png"), "plain.png");
    assert_eq!(filename_of_url("dir/"), "");
}
