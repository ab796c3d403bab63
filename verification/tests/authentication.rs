use biosctl::authentication::{Authentication, AuthenticationEntry, AuthenticationRole};
use biosctl::authentication_catalog::AuthenticationCatalog;
use biosctl::authentication_reader::{AuthenticationProbe, AuthenticationReader};
use biosctl::device::Device;
use biosctl::entry::{DirectoryEntry, EnumerationError, SkipReason};
use biosctl::field::FieldError;
use biosctl::layout::Field;
use biosctl::number::NumberError;
use biosctl::value::{FailureKind, IoFailure, RawRead, ReadError};

const ROOT: &str = "/sys/class/firmware-attributes/dell-wmi-sysman";

fn device() -> Device {
    Device::from(b"dell-wmi-sysman")
}

fn missing() -> IoFailure {
    IoFailure { kind: FailureKind::NotFound, os_code: Some(2) }
}

fn file_of(name: &str, field: &str) -> Vec<u8> {
    format!("{}/authentication/{}/{}", ROOT, name, field).into_bytes()
}

fn text(contents: &str) -> RawRead {
    Ok(contents.to_string())
}

/// Reads the method `name` from the given files, every other file being
/// absent, and reports what was decided and how many files were asked for.
fn read_method(name: &str, files: &[(&str, RawRead)]) -> (AuthenticationEntry, usize) {
    let entry = DirectoryEntry { name: name.as_bytes().to_vec(), is_dir: Ok(true) };
    let mut probe = AuthenticationReader::begin(&device(), Ok(entry));
    let mut asked = 0;
    loop {
        match probe {
            AuthenticationProbe::Done(entry) => return (entry, asked),
            AuthenticationProbe::Read(reader) => {
                let path = reader.path();
                assert_eq!(path, file_of(name, reader.field().file_name()));
                let raw = files
                    .iter()
                    .find(|(field, _)| file_of(name, field) == path)
                    .map(|(_, raw)| raw.clone())
                    .unwrap_or(Err(missing()));
                asked += 1;
                probe = reader.supply(raw);
            }
        }
    }
}

fn admin(role: &str, enabled: &str) -> Vec<(&'static str, RawRead)> {
    vec![
        ("is_enabled", text(enabled)),
        ("min_password_length", text("4\n")),
        ("max_password_length", text("32\n")),
        ("role", text(role)),
    ]
}

fn found(entry: AuthenticationEntry) -> Authentication {
    match entry {
        AuthenticationEntry::Found(method) => method,
        other => panic!("expected a method, got {:?}", other),
    }
}

#[test]
fn role_bios_admin_is_recognized() {
    assert_eq!(AuthenticationRole::from_text("bios-admin"), AuthenticationRole::BiosAdmin);
}

#[test]
fn role_power_on_is_recognized() {
    assert_eq!(AuthenticationRole::from_text("power-on"), AuthenticationRole::PowerOn);
}

#[test]
fn any_other_role_is_kept_as_it_is() {
    for name in ["", "system", "BIOS-ADMIN", "bios-admin ", "power_on", "\u{e9}t\u{e9}"] {
        assert_eq!(
            AuthenticationRole::from_text(name),
            AuthenticationRole::Unknown(name.to_string())
        );
    }
}

#[test]
fn method_is_assembled_from_its_four_files() {
    let (entry, asked) = read_method("Admin", &admin("bios-admin\n", "1\n"));
    assert_eq!(
        found(entry),
        Authentication {
            name: b"Admin".to_vec(),
            is_enabled: true,
            min_password_length: 4,
            max_password_length: 32,
            role: AuthenticationRole::BiosAdmin,
        }
    );
    assert_eq!(asked, 4);
}

#[test]
fn only_zero_means_disabled() {
    assert!(!found(read_method("System", &admin("power-on\n", "0\n")).0).is_enabled);
    assert!(found(read_method("System", &admin("power-on\n", "1\n")).0).is_enabled);
    assert!(found(read_method("System", &admin("power-on\n", "00\n")).0).is_enabled);
    assert!(found(read_method("System", &admin("power-on\n", "no\n")).0).is_enabled);
    assert!(found(read_method("System", &admin("power-on\n", "\n")).0).is_enabled);
    assert!(found(read_method("System", &admin("power-on\n", " 0\n")).0).is_enabled);
}

#[test]
fn unknown_role_does_not_exclude_the_method() {
    let method = found(read_method("Other", &admin("hdd-user\n", "1\n")).0);
    assert_eq!(method.role, AuthenticationRole::Unknown("hdd-user".to_string()));
}

#[test]
fn missing_flag_excludes_the_method_at_once() {
    let (entry, asked) = read_method("Admin", &[("role", text("bios-admin"))]);
    assert_eq!(
        entry,
        AuthenticationEntry::Skipped(SkipReason::Field(FieldError::Read(ReadError {
            path: file_of("Admin", "is_enabled"),
            cause: missing(),
        })))
    );
    assert_eq!(asked, 1);
}

#[test]
fn unparseable_length_excludes_the_method() {
    let mut files = admin("bios-admin\n", "1\n");
    files[2] = ("max_password_length", text("-1\n"));
    let (entry, asked) = read_method("Admin", &files);
    assert_eq!(
        entry,
        AuthenticationEntry::Skipped(SkipReason::Field(FieldError::Number {
            path: file_of("Admin", "max_password_length"),
            text: "-1".to_string(),
            error: NumberError::InvalidDigit,
        }))
    );
    assert_eq!(asked, 3);
}

#[test]
fn missing_role_excludes_the_method() {
    let mut files = admin("bios-admin\n", "1\n");
    files.pop();
    let (entry, _) = read_method("Admin", &files);
    assert_eq!(
        entry,
        AuthenticationEntry::Skipped(SkipReason::Field(FieldError::Read(ReadError {
            path: file_of("Admin", "role"),
            cause: missing(),
        })))
    );
}

#[test]
fn stray_file_among_the_methods_is_ignored() {
    let entry = DirectoryEntry { name: b"README".to_vec(), is_dir: Ok(false) };
    assert_eq!(
        AuthenticationReader::begin(&device(), Ok(entry)),
        AuthenticationProbe::Done(AuthenticationEntry::Ignored)
    );
}

#[test]
fn unreadable_method_entry_is_skipped() {
    let failure = IoFailure { kind: FailureKind::Other, os_code: None };
    assert_eq!(
        AuthenticationReader::begin(&device(), Err(failure)),
        AuthenticationProbe::Done(AuthenticationEntry::Skipped(SkipReason::Entry(failure)))
    );
    let entry = DirectoryEntry { name: b"Admin".to_vec(), is_dir: Err(failure) };
    assert_eq!(
        AuthenticationReader::begin(&device(), Ok(entry)),
        AuthenticationProbe::Done(AuthenticationEntry::Skipped(SkipReason::Kind(failure)))
    );
}

#[test]
fn method_reading_begins_with_the_flag() {
    let entry = DirectoryEntry { name: b"Admin".to_vec(), is_dir: Ok(true) };
    match AuthenticationReader::begin(&device(), Ok(entry)) {
        AuthenticationProbe::Read(reader) => {
            assert_eq!(reader.field(), Field::IsEnabled);
            assert_eq!(reader.path(), file_of("Admin", "is_enabled"));
        }
        other => panic!("expected a request, got {:?}", other),
    }
}

#[test]
fn authentications_keep_good_methods_and_report_the_rest() {
    let entries = vec![
        read_method("Admin", &admin("bios-admin", "1")).0,
        AuthenticationEntry::Ignored,
        read_method("Broken", &[]).0,
        read_method("System", &admin("power-on", "0")).0,
    ];
    let catalog = device().authentications(Ok(entries)).unwrap();
    let names: Vec<Vec<u8>> = catalog.methods.iter().map(|m| m.name.clone()).collect();
    assert_eq!(names, vec![b"Admin".to_vec(), b"System".to_vec()]);
    assert_eq!(catalog.skipped.len(), 1);
}

#[test]
fn authentications_fail_only_when_the_directory_cannot_be_listed() {
    assert_eq!(
        device().authentications(Err(missing())),
        Err(EnumerationError {
            path: format!("{}/authentication", ROOT).into_bytes(),
            cause: missing(),
        })
    );
    let catalog = device().authentications(Ok(vec![read_method("Broken", &[]).0])).unwrap();
    assert_eq!(catalog.methods, Vec::new());
    assert_eq!(catalog.skipped.len(), 1);
    assert_eq!(
        AuthenticationCatalog::collect(Vec::new()),
        AuthenticationCatalog { methods: Vec::new(), skipped: Vec::new() }
    );
}
