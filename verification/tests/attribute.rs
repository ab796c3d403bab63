use biosctl::attribute::{Attribute, AttributeEntry, AttributeType, WriteError, WriteOutcome};
use biosctl::attribute_catalog::AttributeCatalog;
use biosctl::attribute_reader::{AttributeProbe, AttributeReader};
use biosctl::device::Device;
use biosctl::entry::{DirectoryEntry, EnumerationError, SkipReason};
use biosctl::field::FieldError;
use biosctl::layout::Field;
use biosctl::number::NumberError;
use biosctl::value::{FailureKind, IoFailure, RawRead, ReadError};

const ROOT: &str = "/sys/class/firmware-attributes/dell-wmi-sysman";

fn device() -> Device {
    Device::from(b"dell-wmi-sysman")
}

fn missing() -> IoFailure {
    IoFailure { kind: FailureKind::NotFound, os_code: Some(2) }
}

fn denied() -> IoFailure {
    IoFailure { kind: FailureKind::PermissionDenied, os_code: Some(13) }
}

fn file_of(name: &str, field: &str) -> Vec<u8> {
    format!("{}/attributes/{}/{}", ROOT, name, field).into_bytes()
}

/// Reads the attribute `name` from the given files, every other file being
/// absent, and reports what was decided and which files were asked for.
fn read_attribute(name: &str, files: &[(&str, RawRead)]) -> (AttributeEntry, Vec<Vec<u8>>) {
    let entry = DirectoryEntry { name: name.as_bytes().to_vec(), is_dir: Ok(true) };
    let mut probe = AttributeReader::begin(&device(), Ok(entry));
    let mut asked: Vec<Vec<u8>> = Vec::new();
    loop {
        match probe {
            AttributeProbe::Done(entry) => return (entry, asked),
            AttributeProbe::Read(reader) => {
                let path = reader.path();
                assert_eq!(path, file_of(name, reader.field().file_name()));
                let raw = files
                    .iter()
                    .find(|(field, _)| file_of(name, field) == path)
                    .map(|(_, raw)| raw.clone())
                    .unwrap_or(Err(missing()));
                asked.push(path);
                probe = reader.supply(raw);
            }
        }
    }
}

fn text(contents: &str) -> RawRead {
    Ok(contents.to_string())
}

fn common(kind: &str) -> Vec<(&'static str, RawRead)> {
    vec![
        ("current_value", text("5\n")),
        ("default_value", text("1\n")),
        ("display_name", text("Fan Speed\n")),
        ("display_name_language_code", text("en_US.UTF-8\n")),
        ("type", text(kind)),
    ]
}

fn found(entry: AttributeEntry) -> Attribute {
    match entry {
        AttributeEntry::Found(attribute) => attribute,
        other => panic!("expected an attribute, got {:?}", other),
    }
}

fn skipped(entry: AttributeEntry) -> SkipReason {
    match entry {
        AttributeEntry::Skipped(reason) => reason,
        other => panic!("expected a skipped entry, got {:?}", other),
    }
}

fn asked_fields(name: &str, asked: &[Vec<u8>]) -> Vec<String> {
    let prefix = format!("{}/attributes/{}/", ROOT, name).into_bytes();
    asked
        .iter()
        .map(|path| String::from_utf8(path[prefix.len()..].to_vec()).unwrap())
        .collect()
}

#[test]
fn integer_attribute_is_typed_by_its_range() {
    let mut files = common("integer\n");
    files.push(("min_value", text("0\n")));
    files.push(("max_value", text("100\n")));
    files.push(("scalar_increment", text("1\n")));
    let (entry, asked) = read_attribute("FanSpeed", &files);
    let attribute = found(entry);
    assert_eq!(attribute.tpe, AttributeType::Integer { min: 0, max: 100, step: 1 });
    assert_eq!(attribute.name, b"FanSpeed".to_vec());
    assert_eq!(attribute.device_path, ROOT.as_bytes().to_vec());
    assert_eq!(attribute.current_value, Ok("5".to_string()));
    assert_eq!(attribute.default_value, Ok("1".to_string()));
    assert_eq!(attribute.display_name, "Fan Speed");
    assert_eq!(attribute.display_name_lang, "en_US.UTF-8");
    assert_eq!(
        asked_fields("FanSpeed", &asked),
        vec![
            "display_name", "display_name_language_code", "current_value", "default_value",
            "type", "min_value", "max_value", "scalar_increment",
        ]
    );
}

#[test]
fn integer_attribute_may_have_a_negative_range() {
    let mut files = common("integer");
    files.push(("min_value", text("-9223372036854775808")));
    files.push(("max_value", text("+9223372036854775807")));
    files.push(("scalar_increment", text("18446744073709551615")));
    let attribute = found(read_attribute("Offset", &files).0);
    assert_eq!(
        attribute.tpe,
        AttributeType::Integer { min: i64::MIN, max: i64::MAX, step: u64::MAX }
    );
}

#[test]
fn enumeration_attribute_lists_its_values_in_order() {
    let mut files = common("enumeration\n");
    files.push(("possible_values", text("Enabled;Disabled\n")));
    let (entry, asked) = read_attribute("SecureBoot", &files);
    let attribute = found(entry);
    assert_eq!(
        attribute.tpe,
        AttributeType::Enumeration {
            possible_values: vec!["Enabled".to_string(), "Disabled".to_string()]
        }
    );
    assert_eq!(
        asked_fields("SecureBoot", &asked),
        vec![
            "display_name", "display_name_language_code", "current_value", "default_value",
            "type", "possible_values",
        ]
    );
}

#[test]
fn enumeration_values_are_split_at_every_semicolon() {
    let mut files = common("enumeration");
    files.push(("possible_values", text("a;;b c;\n")));
    let attribute = found(read_attribute("Odd", &files).0);
    assert_eq!(
        attribute.tpe,
        AttributeType::Enumeration {
            possible_values: vec![
                "a".to_string(),
                "".to_string(),
                "b c".to_string(),
                "".to_string()
            ]
        }
    );
}

#[test]
fn string_attribute_is_typed_by_its_length_bounds() {
    let mut files = common("string\n");
    files.push(("min_length", text("1\n")));
    files.push(("max_length", text("32\n")));
    let (entry, asked) = read_attribute("AssetTag", &files);
    let attribute = found(entry);
    assert_eq!(attribute.tpe, AttributeType::String { min_length: 1, max_length: 32 });
    assert_eq!(
        asked_fields("AssetTag", &asked),
        vec![
            "display_name", "display_name_language_code", "current_value", "default_value",
            "type", "min_length", "max_length",
        ]
    );
}

#[test]
fn unknown_type_excludes_the_attribute() {
    let (entry, asked) = read_attribute("Strange", &common("bogus\n"));
    assert_eq!(skipped(entry), SkipReason::UnknownType("bogus".to_string()));
    assert_eq!(asked.len(), 5);
}

#[test]
fn type_names_are_case_sensitive() {
    let (entry, _) = read_attribute("Strange", &common("Integer\n"));
    assert_eq!(skipped(entry), SkipReason::UnknownType("Integer".to_string()));
}

#[test]
fn missing_display_name_excludes_the_attribute_at_once() {
    let files = vec![("current_value", text("5\n")), ("type", text("integer\n"))];
    let (entry, asked) = read_attribute("Nameless", &files);
    assert_eq!(
        skipped(entry),
        SkipReason::Field(FieldError::Read(ReadError {
            path: file_of("Nameless", "display_name"),
            cause: missing(),
        }))
    );
    assert_eq!(asked_fields("Nameless", &asked), vec!["display_name"]);
}

#[test]
fn missing_language_code_excludes_the_attribute() {
    let files = vec![("display_name", text("Name\n")), ("type", text("integer\n"))];
    let (entry, asked) = read_attribute("HalfNamed", &files);
    assert_eq!(
        skipped(entry),
        SkipReason::Field(FieldError::Read(ReadError {
            path: file_of("HalfNamed", "display_name_language_code"),
            cause: missing(),
        }))
    );
    assert_eq!(asked.len(), 2);
}

#[test]
fn missing_type_excludes_the_attribute() {
    let files = vec![
        ("display_name", text("Name\n")),
        ("display_name_language_code", text("en\n")),
    ];
    let (entry, _) = read_attribute("Untyped", &files);
    assert_eq!(
        skipped(entry),
        SkipReason::Field(FieldError::Read(ReadError {
            path: file_of("Untyped", "type"),
            cause: missing(),
        }))
    );
}

#[test]
fn unreadable_values_are_kept_inside_a_valid_attribute() {
    let files = vec![
        ("current_value", Err(denied())),
        ("default_value", Err(denied())),
        ("display_name", text("Password\n")),
        ("display_name_language_code", text("en\n")),
        ("type", text("string\n")),
        ("min_length", text("4\n")),
        ("max_length", text("8\n")),
    ];
    let attribute = found(read_attribute("Secret", &files).0);
    assert_eq!(
        attribute.current_value,
        Err(ReadError { path: file_of("Secret", "current_value"), cause: denied() })
    );
    assert_eq!(
        attribute.default_value,
        Err(ReadError { path: file_of("Secret", "default_value"), cause: denied() })
    );
    assert_eq!(attribute.tpe, AttributeType::String { min_length: 4, max_length: 8 });
}

#[test]
fn one_unreadable_value_does_not_block_the_other() {
    let mut files = common("enumeration");
    files[0] = ("current_value", Err(denied()));
    files.push(("possible_values", text("On;Off")));
    let attribute = found(read_attribute("Half", &files).0);
    assert!(attribute.current_value.is_err());
    assert_eq!(attribute.default_value, Ok("1".to_string()));
}

#[test]
fn unparseable_bound_excludes_the_attribute() {
    let mut files = common("integer\n");
    files.push(("min_value", text("0\n")));
    files.push(("max_value", text("lots\n")));
    files.push(("scalar_increment", text("1\n")));
    let (entry, asked) = read_attribute("Broken", &files);
    assert_eq!(
        skipped(entry),
        SkipReason::Field(FieldError::Number {
            path: file_of("Broken", "max_value"),
            text: "lots".to_string(),
            error: NumberError::InvalidDigit,
        })
    );
    assert_eq!(asked.len(), 7);
}

#[test]
fn negative_increment_excludes_the_attribute() {
    let mut files = common("integer\n");
    files.push(("min_value", text("-5\n")));
    files.push(("max_value", text("5\n")));
    files.push(("scalar_increment", text("-1\n")));
    let (entry, _) = read_attribute("Backwards", &files);
    assert_eq!(
        skipped(entry),
        SkipReason::Field(FieldError::Number {
            path: file_of("Backwards", "scalar_increment"),
            text: "-1".to_string(),
            error: NumberError::InvalidDigit,
        })
    );
}

#[test]
fn missing_possible_values_exclude_the_attribute() {
    let (entry, _) = read_attribute("Choice", &common("enumeration\n"));
    assert_eq!(
        skipped(entry),
        SkipReason::Field(FieldError::Read(ReadError {
            path: file_of("Choice", "possible_values"),
            cause: missing(),
        }))
    );
}

#[test]
fn string_attribute_needs_its_own_maximum() {
    let mut files = common("string\n");
    files.push(("min_length", text("3\n")));
    let (entry, _) = read_attribute("Short", &files);
    assert_eq!(
        skipped(entry),
        SkipReason::Field(FieldError::Read(ReadError {
            path: file_of("Short", "max_length"),
            cause: missing(),
        }))
    );
}

#[test]
fn leading_whitespace_of_a_value_is_kept() {
    let mut files = common("enumeration");
    files[0] = ("current_value", text("  padded \n\n"));
    files.push(("possible_values", text("x")));
    let attribute = found(read_attribute("Padded", &files).0);
    assert_eq!(attribute.current_value, Ok("  padded".to_string()));
}

#[test]
fn regular_file_is_ignored_without_a_reason() {
    let entry = DirectoryEntry { name: b"pending_reboot".to_vec(), is_dir: Ok(false) };
    let probe = AttributeReader::begin(&device(), Ok(entry));
    assert_eq!(probe, AttributeProbe::Done(AttributeEntry::Ignored));
}

#[test]
fn entry_of_unknown_kind_is_skipped() {
    let entry = DirectoryEntry { name: b"Odd".to_vec(), is_dir: Err(denied()) };
    let probe = AttributeReader::begin(&device(), Ok(entry));
    assert_eq!(
        probe,
        AttributeProbe::Done(AttributeEntry::Skipped(SkipReason::Kind(denied())))
    );
}

#[test]
fn unreadable_entry_is_skipped() {
    let failure = IoFailure { kind: FailureKind::Other, os_code: Some(5) };
    let probe = AttributeReader::begin(&device(), Err(failure));
    assert_eq!(
        probe,
        AttributeProbe::Done(AttributeEntry::Skipped(SkipReason::Entry(failure)))
    );
}

#[test]
fn reading_begins_with_the_display_name() {
    let entry = DirectoryEntry { name: b"First".to_vec(), is_dir: Ok(true) };
    match AttributeReader::begin(&device(), Ok(entry)) {
        AttributeProbe::Read(reader) => {
            assert_eq!(reader.field(), Field::DisplayName);
            assert_eq!(reader.path(), file_of("First", "display_name"));
        }
        other => panic!("expected a request, got {:?}", other),
    }
}

fn sample_entries() -> Vec<AttributeEntry> {
    let mut integer = common("integer");
    integer.push(("min_value", text("0")));
    integer.push(("max_value", text("100")));
    integer.push(("scalar_increment", text("1")));
    let mut choice = common("enumeration");
    choice.push(("possible_values", text("Enabled;Disabled")));
    vec![
        read_attribute("FanSpeed", &integer).0,
        AttributeEntry::Ignored,
        read_attribute("Strange", &common("bogus")).0,
        read_attribute("SecureBoot", &choice).0,
        read_attribute("Nameless", &[]).0,
    ]
}

#[test]
fn enumeration_keeps_typed_directories_and_reports_the_rest() {
    let catalog = device().attributes(Ok(sample_entries())).unwrap();
    let names: Vec<Vec<u8>> = catalog.attributes.iter().map(|a| a.name.clone()).collect();
    assert_eq!(names, vec![b"FanSpeed".to_vec(), b"SecureBoot".to_vec()]);
    assert_eq!(catalog.skipped.len(), 2);
    assert_eq!(catalog.skipped[0], SkipReason::UnknownType("bogus".to_string()));
    assert_eq!(
        catalog.skipped[1],
        SkipReason::Field(FieldError::Read(ReadError {
            path: file_of("Nameless", "display_name"),
            cause: missing(),
        }))
    );
}

#[test]
fn enumeration_of_an_empty_directory_is_empty() {
    let catalog = device().attributes(Ok(Vec::new())).unwrap();
    assert!(catalog.attributes.is_empty());
    assert!(catalog.skipped.is_empty());
}

#[test]
fn enumeration_of_stray_files_only_is_empty_and_silent() {
    let entries = vec![AttributeEntry::Ignored, AttributeEntry::Ignored];
    let catalog = device().attributes(Ok(entries)).unwrap();
    assert!(catalog.attributes.is_empty());
    assert!(catalog.skipped.is_empty());
}

#[test]
fn enumeration_fails_only_when_the_directory_cannot_be_listed() {
    assert_eq!(
        device().attributes(Err(missing())),
        Err(EnumerationError {
            path: format!("{}/attributes", ROOT).into_bytes(),
            cause: missing(),
        })
    );
    let all_bad = vec![
        read_attribute("A", &[]).0,
        read_attribute("B", &common("bogus")).0,
    ];
    let catalog = device().attributes(Ok(all_bad)).unwrap();
    assert!(catalog.attributes.is_empty());
    assert_eq!(catalog.skipped.len(), 2);
}

#[test]
fn enumerating_twice_gives_identical_results() {
    let first = device().attributes(Ok(sample_entries())).unwrap();
    let second = device().attributes(Ok(sample_entries())).unwrap();
    assert_eq!(first, second);
}

#[test]
fn enumerating_in_another_order_gives_the_same_attributes() {
    let forward = device().attributes(Ok(sample_entries())).unwrap();
    let mut reversed = sample_entries();
    reversed.reverse();
    let mut backward = device().attributes(Ok(reversed)).unwrap();
    backward.attributes.reverse();
    backward.skipped.reverse();
    assert_eq!(forward, backward);
}

#[test]
fn catalog_records_entries_one_by_one() {
    let mut catalog = AttributeCatalog::new();
    for entry in sample_entries() {
        catalog.record(entry);
    }
    assert_eq!(catalog, AttributeCatalog::collect(sample_entries()));
    assert_eq!(catalog.attributes.len(), 2);
}

#[test]
fn lookup_finds_the_attribute_by_its_exact_name() {
    let attribute = device().attribute(Ok(sample_entries()), b"SecureBoot").unwrap().unwrap();
    assert_eq!(attribute.name, b"SecureBoot".to_vec());
    assert_eq!(
        attribute.tpe,
        AttributeType::Enumeration {
            possible_values: vec!["Enabled".to_string(), "Disabled".to_string()]
        }
    );
}

#[test]
fn lookup_does_not_fold_case() {
    assert_eq!(device().attribute(Ok(sample_entries()), b"secureboot"), Ok(None));
    assert_eq!(device().attribute(Ok(sample_entries()), b"SecureBoo"), Ok(None));
    assert_eq!(device().attribute(Ok(sample_entries()), b""), Ok(None));
}

#[test]
fn lookup_does_not_find_skipped_entries() {
    assert_eq!(device().attribute(Ok(sample_entries()), b"Strange"), Ok(None));
}

#[test]
fn lookup_takes_the_first_of_two_namesakes() {
    let mut first = common("enumeration");
    first.push(("possible_values", text("first")));
    let mut second = common("enumeration");
    second.push(("possible_values", text("second")));
    let entries = vec![
        read_attribute("Twin", &first).0,
        read_attribute("Other", &second).0,
        read_attribute("Twin", &second).0,
    ];
    let attribute = device().attribute(Ok(entries), b"Twin").unwrap().unwrap();
    assert_eq!(
        attribute.tpe,
        AttributeType::Enumeration { possible_values: vec!["first".to_string()] }
    );
}

#[test]
fn lookup_fails_when_the_directory_cannot_be_listed() {
    assert_eq!(
        device().attribute(Err(denied()), b"SecureBoot"),
        Err(EnumerationError {
            path: format!("{}/attributes", ROOT).into_bytes(),
            cause: denied(),
        })
    );
}

fn secure_boot() -> Attribute {
    let mut files = common("enumeration");
    files[0] = ("current_value", text("Disabled\n"));
    files.push(("possible_values", text("Enabled;Disabled")));
    found(read_attribute("SecureBoot", &files).0)
}

#[test]
fn write_request_names_the_value_file_and_keeps_the_bytes() {
    let attribute = secure_boot();
    let request = attribute.write_request(b" Enabled \n\xff");
    assert_eq!(request.path, file_of("SecureBoot", "current_value"));
    assert_eq!(request.contents, b" Enabled \n\xff".to_vec());
    assert_eq!(attribute.value_path(), file_of("SecureBoot", "current_value"));
}

#[test]
fn set_value_stores_what_the_reread_gave() {
    let mut attribute = secure_boot();
    assert_eq!(attribute.current_value, Ok("Disabled".to_string()));
    assert_eq!(attribute.set_value(WriteOutcome::Written(text("Enabled\n"))), Ok(()));
    assert_eq!(attribute.current_value, Ok("Enabled".to_string()));
    assert_eq!(attribute.name, b"SecureBoot".to_vec());
    assert_eq!(attribute.default_value, Ok("1".to_string()));
}

#[test]
fn set_value_stores_the_value_that_the_firmware_chose() {
    let mut attribute = secure_boot();
    assert_eq!(attribute.set_value(WriteOutcome::Written(text("Audit\n"))), Ok(()));
    assert_eq!(attribute.current_value, Ok("Audit".to_string()));
}

#[test]
fn set_value_stores_a_failed_reread() {
    let mut attribute = secure_boot();
    assert_eq!(attribute.set_value(WriteOutcome::Written(Err(denied()))), Ok(()));
    assert_eq!(
        attribute.current_value,
        Err(ReadError { path: file_of("SecureBoot", "current_value"), cause: denied() })
    );
}

#[test]
fn failed_write_is_reported_and_changes_nothing() {
    let mut attribute = secure_boot();
    assert_eq!(
        attribute.set_value(WriteOutcome::Failed(denied())),
        Err(WriteError { path: file_of("SecureBoot", "current_value"), cause: denied() })
    );
    assert_eq!(attribute, secure_boot());
}

#[test]
fn pending_reboot_flag_one_means_modified() {
    assert_eq!(device().modified(text("1\n")), Ok(true));
    assert_eq!(device().modified(text("1")), Ok(true));
    assert_eq!(device().modified(text("+1\n")), Ok(true));
    assert_eq!(device().modified(text("01\n")), Ok(true));
}

#[test]
fn pending_reboot_flag_zero_means_unmodified() {
    assert_eq!(device().modified(text("0\n")), Ok(false));
}

#[test]
fn every_other_number_means_unmodified() {
    assert_eq!(device().modified(text("2\n")), Ok(false));
    assert_eq!(device().modified(text("255\n")), Ok(false));
    assert_eq!(device().modified(text("10\n")), Ok(false));
}

#[test]
fn missing_pending_reboot_file_is_an_error() {
    let path = format!("{}/attributes/pending_reboot", ROOT).into_bytes();
    assert_eq!(device().pending_reboot_path(), path);
    assert_eq!(
        device().modified(Err(missing())),
        Err(FieldError::Read(ReadError { path, cause: missing() }))
    );
}

#[test]
fn unparseable_pending_reboot_flag_is_an_error() {
    let path = format!("{}/attributes/pending_reboot", ROOT).into_bytes();
    assert_eq!(
        device().modified(text("yes\n")),
        Err(FieldError::Number {
            path: path.clone(),
            text: "yes".to_string(),
            error: NumberError::InvalidDigit,
        })
    );
    assert_eq!(
        device().modified(text("256\n")),
        Err(FieldError::Number {
            path: path.clone(),
            text: "256".to_string(),
            error: NumberError::PosOverflow,
        })
    );
    assert_eq!(
        device().modified(text("\n")),
        Err(FieldError::Number { path, text: "".to_string(), error: NumberError::Empty })
    );
}
