use shortcut::error::ShortcutError;
use shortcut::update::{
    has_write_permission, open_archive, proxy_hosts, DOWNLOAD_TIMEOUT_SECS, UPDATE_DONE,
};
use std::io::{Cursor, Read, Write};

#[test]
fn writable_directory_has_write_permission() {
    assert_eq!(has_write_permission(true, Some(false)), Ok(()));
}

#[test]
fn read_only_directory_asks_for_more_rights() {
    let verdict = has_write_permission(true, Some(true));
    assert_eq!(verdict, Err(ShortcutError::StoreReadOnly));
    let error = verdict.unwrap_err();
    assert_eq!(error.exit_code(), 1);
    assert_eq!(
        error.message(),
        "Writing to /opt/shortcut/pages/ requires sudo privileges, please run with sudo"
    );
}

#[test]
fn directory_that_cannot_be_made_or_read_is_unreadable() {
    assert_eq!(has_write_permission(false, None), Err(ShortcutError::StoreUnreadable));
    assert_eq!(has_write_permission(false, Some(false)), Err(ShortcutError::StoreUnreadable));
    assert_eq!(has_write_permission(false, Some(true)), Err(ShortcutError::StoreUnreadable));
    assert_eq!(has_write_permission(true, None), Err(ShortcutError::StoreUnreadable));
}

#[test]
fn proxies_come_in_the_order_http_then_https() {
    let http = String::from("http://proxy:3128");
    let https = String::from("http://secure:3129");
    assert_eq!(proxy_hosts(None, None), Vec::<String>::new());
    assert_eq!(proxy_hosts(Some(http.clone()), None), vec![http.clone()]);
    assert_eq!(proxy_hosts(None, Some(https.clone())), vec![https.clone()]);
    assert_eq!(proxy_hosts(Some(http.clone()), Some(https.clone())), vec![http, https]);
}

#[test]
fn update_constants_have_their_values() {
    assert_eq!(DOWNLOAD_TIMEOUT_SECS, 10);
    assert_eq!(UPDATE_DONE, "Successfully updated cache");
}

#[test]
fn bytes_that_are_no_archive_are_an_archive_error() {
    for bytes in [Vec::new(), b"not a zip file".to_vec(), vec![0u8; 64], b"PK\x03\x04".to_vec()] {
        let opened = open_archive(bytes);
        assert!(matches!(opened, Err(ShortcutError::Archive)));
        let error = opened.err().unwrap();
        assert_eq!(error.exit_code(), 1);
        assert_eq!(
            error.message(),
            "Could not update shortcut cache: Could not decompress downloaded ZIP archive"
        );
    }
}

#[test]
fn empty_archive_opens() {
    let mut bytes = b"PK\x05\x06".to_vec();
    bytes.extend([0u8; 18]);
    let archive = open_archive(bytes).unwrap();
    assert_eq!(archive.len(), 0);
}

#[test]
fn archive_with_pages_opens_and_holds_them() {
    let mut writer = zip::ZipWriter::new(Cursor::new(Vec::new()));
    let options =
        zip::write::FileOptions::default().compression_method(zip::CompressionMethod::Stored);
    writer.start_file("git.md", options).unwrap();
    writer.write_all(b"# git\n`git log` {{history}}\n").unwrap();
    writer.start_file("vim.md", options).unwrap();
    writer.write_all(b"# vim\n").unwrap();
    let bytes = writer.finish().unwrap().into_inner();

    let mut archive = open_archive(bytes.clone()).unwrap();
    assert_eq!(archive.len(), 2);
    assert_eq!(archive.clone().into_inner().into_inner(), bytes);
    let mut text = String::new();
    archive.by_name("git.md").unwrap().read_to_string(&mut text).unwrap();
    assert_eq!(text, "# git\n`git log` {{history}}\n");

    let mut cut = bytes;
    cut.truncate(cut.len() - 30);
    assert!(matches!(open_archive(cut), Err(ShortcutError::Archive)));
}
