use avernus::matrix::attachment::{attachment_body, caption_to_send, display_name_of};
use avernus::matrix::MatrixBackend;

#[test]
fn attachment_content_type_guesses_known_media_types() {
    assert_eq!(MatrixBackend::attachment_content_type("photo.png"), mime::IMAGE_PNG.as_ref());
    assert_eq!(
        MatrixBackend::attachment_content_type("report.pdf"),
        mime::APPLICATION_PDF.as_ref()
    );
}

#[test]
fn a_colon_within_a_path_is_part_of_a_name() {
    assert_eq!(MatrixBackend::attachment_content_type("/tmp/12:30.png"), "image/png");
}

#[test]
fn a_path_with_a_drive_a_share_or_backslashes_is_shown_by_its_last_part() {
    for (path, on_unix, on_windows) in [
        ("C:\\x\\b.pdf", "C:\\x\\b.pdf", "b.pdf"),
        ("C:/x/b.pdf", "b.pdf", "b.pdf"),
        ("C:b.pdf", "C:b.pdf", "b.pdf"),
        ("C:", "C:", "attachment"),
        ("C:\\", "C:\\", "attachment"),
        ("C:\\x\\..", "C:\\x\\..", "attachment"),
        ("C:\\x\\.\\", "C:\\x\\.\\", "x"),
        ("a\\b.png", "a\\b.png", "b.png"),
        ("d/a\\b.png", "a\\b.png", "b.png"),
        ("\\\\server\\share", "\\\\server\\share", "attachment"),
        ("\\\\server\\share\\b.png", "\\\\server\\share\\b.png", "b.png"),
        ("//server/share", "share", "attachment"),
        ("//server/share/b.png", "b.png", "b.png"),
        ("//./x", "x", "attachment"),
        ("\\\\?\\C:\\b.png", "\\\\?\\C:\\b.png", "b.png"),
        ("\\\\?\\UNC\\server\\share\\b.png", "\\\\?\\UNC\\server\\share\\b.png", "b.png"),
    ] {
        let name = MatrixBackend::attachment_display_name(path);
        assert!(name == on_unix || name == on_windows, "{path}: {name}");
    }
}

#[test]
fn the_media_type_of_a_file_in_a_directory_is_the_same_on_every_platform() {
    for (path, content_type) in [
        ("C:\\x\\b.pdf", "application/pdf"),
        ("C:/x/b.pdf", "application/pdf"),
        ("C:b.pdf", "application/pdf"),
        ("a\\b.png", "image/png"),
        ("a\\..png", "image/png"),
        ("\\\\server\\share\\b.png", "image/png"),
        ("//server/share/b.png", "image/png"),
        ("\\\\?\\C:\\b.png", "image/png"),
        ("a.png\\b", "application/octet-stream"),
        ("a.png/b\\c", "application/octet-stream"),
        ("a\\b.png.", "application/octet-stream"),
        ("a.b\\c.", "application/octet-stream"),
        ("a\\b", "application/octet-stream"),
        ("\\", "application/octet-stream"),
        ("\\..", "application/octet-stream"),
    ] {
        assert_eq!(MatrixBackend::attachment_content_type(path), content_type, "{path}");
    }
}

#[test]
fn any_path_is_typed_by_its_extension_or_as_one_without() {
    for path in ["\\.png", "C:.png", "\\\\server\\x.png", "//server/x.png", "a\\b.png\\"] {
        let guess = MatrixBackend::attachment_content_type(path);
        assert!(guess == "image/png" || guess == "application/octet-stream", "{path}: {guess}");
    }
}

#[test]
fn the_extension_alone_gives_the_media_type() {
    for path in ["photo.png", "/home/alice/photo.png", "photo.png/", "d.pdf/photo.png/.", "a.b.png"]
    {
        assert_eq!(
            MatrixBackend::attachment_content_type(path),
            MatrixBackend::attachment_content_type("file.png"),
            "{path}"
        );
    }
    for path in ["", "/", ".png", "d.png/..", "photo.png.", "d.png/photo"] {
        assert_eq!(
            MatrixBackend::attachment_content_type(path),
            "application/octet-stream",
            "{path}"
        );
    }
}

#[test]
fn an_unknown_media_type_is_a_stream_of_bytes() {
    assert_eq!(
        MatrixBackend::attachment_content_type("notes"),
        mime::APPLICATION_OCTET_STREAM.as_ref()
    );
}

#[test]
fn an_attachment_is_shown_by_its_file_name() {
    for (path, name) in [
        ("photo.png", "photo.png"),
        ("/home/alice/photo.png", "photo.png"),
        ("dir/photo.png/", "photo.png"),
        ("dir/photo.png/./", "photo.png"),
        ("./.", "attachment"),
        ("dir/..", "attachment"),
        ("/", "attachment"),
        ("", "attachment"),
        ("...", "..."),
        ("/tmp/12:30.png", "12:30.png"),
        ("1:a", "1:a"),
    ] {
        assert_eq!(MatrixBackend::attachment_display_name(path), name, "{path}");
    }
}

#[test]
fn an_attachment_without_a_name_gets_one() {
    assert_eq!(display_name_of(None), "attachment");
    assert_eq!(display_name_of(Some(String::new())), "attachment");
    assert_eq!(display_name_of(Some("a".to_string())), "a");
}

#[test]
fn a_blank_caption_does_not_go_out() {
    assert_eq!(caption_to_send(Some(" \t".to_string())), None);
    assert_eq!(caption_to_send(Some(" a ".to_string())), Some(" a ".to_string()));
    assert_eq!(caption_to_send(None), None);
    assert_eq!(attachment_body("a.png", &None), "Attachment: a.png");
    assert_eq!(attachment_body("a.png", &Some(" ".to_string())), "Attachment: a.png");
    assert_eq!(attachment_body("a.png", &Some("hi".to_string())), "Attachment: a.png (hi)");
}
