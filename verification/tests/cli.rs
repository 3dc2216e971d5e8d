use shortcut::cli::{dispatch, Intent};
use shortcut::error::{exit_code, ErrorKind, ShortcutError, DOWNLOAD_ARCHIVE_URL, PAGES_BASE_DIR};

#[test]
fn update_goes_before_everything_else() {
    assert_eq!(dispatch(Some(String::from("git")), true, true, true), Ok(Intent::Update));
    assert_eq!(dispatch(None, false, true, false), Ok(Intent::Update));
}

#[test]
fn list_goes_before_a_page() {
    assert_eq!(dispatch(Some(String::from("git")), true, false, false), Ok(Intent::List));
    assert_eq!(dispatch(None, true, false, true), Ok(Intent::List));
}

#[test]
fn program_name_asks_for_its_page() {
    assert_eq!(
        dispatch(Some(String::from("firefox")), false, false, false),
        Ok(Intent::Render { program_name: String::from("firefox"), colour: true })
    );
    assert_eq!(
        dispatch(Some(String::from("firefox")), false, false, true),
        Ok(Intent::Render { program_name: String::from("firefox"), colour: false })
    );
}

#[test]
fn program_name_is_trimmed() {
    assert_eq!(
        dispatch(Some(String::from("  Git Log\t")), false, false, false),
        Ok(Intent::Render { program_name: String::from("Git Log"), colour: true })
    );
}

#[test]
fn missing_or_blank_program_name_is_no_argument() {
    assert_eq!(dispatch(None, false, false, false), Err(ShortcutError::NoArgument));
    assert_eq!(dispatch(Some(String::new()), false, false, false), Err(ShortcutError::NoArgument));
    assert_eq!(
        dispatch(Some(String::from(" \t\n")), false, false, true),
        Err(ShortcutError::NoArgument)
    );
}

#[test]
fn each_error_has_its_class() {
    assert_eq!(ShortcutError::NoArgument.kind(), ErrorKind::Usage);
    assert_eq!(ShortcutError::InvalidName(String::from("..")).kind(), ErrorKind::Usage);
    assert_eq!(ShortcutError::StoreMissing.kind(), ErrorKind::Configuration);
    assert_eq!(ShortcutError::StoreEmpty.kind(), ErrorKind::Configuration);
    assert_eq!(ShortcutError::StoreReadOnly.kind(), ErrorKind::Configuration);
    assert_eq!(ShortcutError::StoreUnreadable.kind(), ErrorKind::Configuration);
    assert_eq!(ShortcutError::PageNotFound(String::from("x")).kind(), ErrorKind::NotFound);
    assert_eq!(ShortcutError::ClientSetup.kind(), ErrorKind::Network);
    assert_eq!(ShortcutError::Download.kind(), ErrorKind::Network);
    assert_eq!(ShortcutError::Archive.kind(), ErrorKind::Archive);
    assert_eq!(ShortcutError::PageUnreadable.kind(), ErrorKind::Io);
}

#[test]
fn only_a_missing_page_ends_with_zero() {
    assert_eq!(ShortcutError::PageNotFound(String::from("x")).exit_code(), 0);
    for error in [
        ShortcutError::NoArgument,
        ShortcutError::InvalidName(String::from("/")),
        ShortcutError::StoreMissing,
        ShortcutError::StoreEmpty,
        ShortcutError::StoreReadOnly,
        ShortcutError::StoreUnreadable,
        ShortcutError::ClientSetup,
        ShortcutError::Download,
        ShortcutError::Archive,
        ShortcutError::PageUnreadable,
    ] {
        assert_eq!(error.exit_code(), 1);
        assert_eq!(exit_code(&Err(error)), 1);
    }
    assert_eq!(exit_code(&Ok(())), 0);
    assert_eq!(exit_code(&Err(ShortcutError::PageNotFound(String::from("x")))), 0);
}

#[test]
fn each_error_has_its_message() {
    assert_eq!(ShortcutError::NoArgument.message(), "No valid argument specified");
    assert_eq!(
        ShortcutError::InvalidName(String::from("a/..")).message(),
        "Invalid program name \"a/..\""
    );
    assert_eq!(
        ShortcutError::StoreMissing.message(),
        "Shortcut pages directory does not exist, please run shortcut --update"
    );
    assert_eq!(
        ShortcutError::StoreEmpty.message(),
        "Shortcut pages directory is empty, please run shortcut --update"
    );
    assert_eq!(
        ShortcutError::StoreReadOnly.message(),
        "Writing to /opt/shortcut/pages/ requires sudo privileges, please run with sudo"
    );
    assert_eq!(ShortcutError::StoreUnreadable.message(), "Could not read shortcut pages directory");
    assert_eq!(
        ShortcutError::PageNotFound(String::from("git")).message(),
        "No page available for \"git\""
    );
    assert_eq!(
        ShortcutError::ClientSetup.message(),
        "Could not update shortcut cache: Could not instantiate HTTP client"
    );
    assert_eq!(
        ShortcutError::Download.message(),
        format!(
            "Could not update shortcut cache: Could not download shortcut pages from {}",
            DOWNLOAD_ARCHIVE_URL
        )
    );
    assert_eq!(
        ShortcutError::Archive.message(),
        "Could not update shortcut cache: Could not decompress downloaded ZIP archive"
    );
    assert_eq!(ShortcutError::PageUnreadable.message(), "Problem reading the file");
}

#[test]
fn fixed_places_have_their_values() {
    assert_eq!(PAGES_BASE_DIR, "/opt/shortcut/pages/");
    assert_eq!(
        DOWNLOAD_ARCHIVE_URL,
        "https://github.com/mt-empty/shortcut-pages/releases/latest/download/shortcuts.zip"
    );
}

#[test]
fn copies_are_equal_to_what_they_were_made_from() {
    let error = ShortcutError::PageNotFound(String::from("git"));
    assert_eq!(error.clone(), error);
    assert_eq!(ShortcutError::Archive.clone(), ShortcutError::Archive);
    let intent = Intent::Render { program_name: String::from("git"), colour: false };
    assert_eq!(intent.clone(), intent);
    assert_eq!(Intent::List.clone(), Intent::List);
}
