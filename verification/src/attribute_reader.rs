//! Reading one attribute, one file at a time.
//!
//! The library cannot read files.  It says which file it wants next, the
//! caller reads it and hands the outcome back, and so on until the entry is
//! decided.  Files are asked for in a fixed order and only as far as they
//! are needed: nothing is read after the first required field that fails,
//! and of the type-dependent fields only those of the attribute's own type.

use vstd::prelude::*;
use vstd::string::*;
use crate::attribute::{
    Attribute,
    AttributeEntry,
    AttributeEntryView,
    AttributeType,
    AttributeTypeView,
    AttributeView,
};
use crate::device::{attribute_directory, Device};
use crate::entry::{entry_view, text_of, values_view, DirectoryEntry, SkipReason, SkipReasonView};
use crate::field::{check_field, field_error, number_of, signed_number, unsigned_number};
use crate::layout::{Field, Format};
use crate::path::{copy_bytes, join_path};
use crate::text::{same_text, split, split_on};
use crate::value::{IoFailure, RawRead, Value, ValueView, raw_view, read_value, value_of, value_view};

verus! {

/// The fields that every attribute has, in the order in which they are
/// read.
pub open spec fn common_fields() -> Seq<Field> {
    seq![
        Field::DisplayName,
        Field::DisplayNameLanguageCode,
        Field::CurrentValue,
        Field::DefaultValue,
        Field::Type,
    ]
}

/// The fields that an attribute of the type called `text` has beyond the
/// common ones, in the order in which they are read; `None` for a type that
/// is not known.  Type names are compared exactly.  The two bounds of a
/// string attribute are kept in two files, `min_length` and `max_length`.
pub open spec fn type_fields(text: Seq<char>) -> Option<Seq<Field>> {
    if text == "enumeration"@ {
        Some(seq![Field::PossibleValues])
    } else if text == "integer"@ {
        Some(seq![Field::MinValue, Field::MaxValue, Field::ScalarIncrement])
    } else if text == "string"@ {
        Some(seq![Field::MinLength, Field::MaxLength])
    } else {
        None
    }
}

/// The typed constraints of an attribute of the type called `text` whose
/// type-dependent fields hold `extra`.
pub open spec fn attribute_type(text: Seq<char>, extra: Seq<ValueView>) -> AttributeTypeView {
    if text == "enumeration"@ {
        AttributeTypeView::Enumeration { possible_values: split_on(extra[0]->Ok_0, ';') }
    } else if text == "integer"@ {
        AttributeTypeView::Integer {
            min: number_of(Format::Signed, extra[0]->Ok_0) as i64,
            max: number_of(Format::Signed, extra[1]->Ok_0) as i64,
            step: number_of(Format::Unsigned, extra[2]->Ok_0) as u64,
        }
    } else {
        AttributeTypeView::String {
            min_length: number_of(Format::Unsigned, extra[0]->Ok_0) as u64,
            max_length: number_of(Format::Unsigned, extra[1]->Ok_0) as u64,
        }
    }
}

/// All the fields of the attribute whose first fields hold `values`, in the
/// order in which they are read.  The type-dependent ones are known once
/// the type has been read.
pub open spec fn attribute_fields(values: Seq<ValueView>) -> Seq<Field> {
    if values.len() >= 5 && values[4] is Ok && type_fields(values[4]->Ok_0) is Some {
        common_fields() + type_fields(values[4]->Ok_0)->Some_0
    } else {
        common_fields()
    }
}

/// The attribute whose fields hold `values`.
pub open spec fn assemble(device_path: Seq<u8>, name: Seq<u8>, values: Seq<ValueView>)
    -> AttributeView {
    AttributeView {
        device_path,
        name,
        tpe: attribute_type(values[4]->Ok_0, values.skip(5)),
        current_value: values[2],
        default_value: values[3],
        display_name: values[0]->Ok_0,
        display_name_lang: values[1]->Ok_0,
    }
}

/// Where the reading of one attribute stands.
pub enum AttributeProbeView {
    /// `values` have been read and all are usable; one more file is wanted.
    Read { device_path: Seq<u8>, name: Seq<u8>, values: Seq<ValueView> },
    /// The entry is decided.
    Done(AttributeEntryView),
}

/// Where the reading of an attribute stands once `values` have been read,
/// the last of them just now and the ones before it all usable.
///
/// A required field that is unreadable or not a number ends the reading
/// with that error, an unknown type ends it as soon as the type is read,
/// and with the last field of its type the attribute is complete.
pub open spec fn attribute_step(device_path: Seq<u8>, name: Seq<u8>, values: Seq<ValueView>)
    -> AttributeProbeView {
    let fields = attribute_fields(values);
    let last = values.len() - 1;
    let directory = attribute_directory(device_path, name);
    if 0 <= last < fields.len() && field_error(fields[last], directory, values[last]) is Some {
        AttributeProbeView::Done(
            AttributeEntryView::Skipped(
                SkipReasonView::Field(field_error(fields[last], directory, values[last])->Some_0),
            ),
        )
    } else if values.len() == 5 && type_fields(values[4]->Ok_0) is None {
        AttributeProbeView::Done(
            AttributeEntryView::Skipped(SkipReasonView::UnknownType(values[4]->Ok_0)),
        )
    } else if values.len() < fields.len() {
        AttributeProbeView::Read { device_path, name, values }
    } else {
        AttributeProbeView::Done(AttributeEntryView::Found(assemble(device_path, name, values)))
    }
}

/// How the reading of the directory entry `entry` begins.  An entry that
/// is not a directory is ignored without a word; one whose kind cannot be
/// told is skipped.
pub open spec fn attribute_start(
    device_path: Seq<u8>,
    entry: Result<(Seq<u8>, Result<bool, IoFailure>), IoFailure>,
) -> AttributeProbeView {
    match entry {
        Err(failure) => AttributeProbeView::Done(
            AttributeEntryView::Skipped(SkipReasonView::Entry(failure)),
        ),
        Ok((name, Err(failure))) => AttributeProbeView::Done(
            AttributeEntryView::Skipped(SkipReasonView::Kind(failure)),
        ),
        Ok((name, Ok(false))) => AttributeProbeView::Done(AttributeEntryView::Ignored),
        Ok((name, Ok(true))) => attribute_step(device_path, name, Seq::empty()),
    }
}

/// Whether every field of the attribute has been read and is usable.
pub open spec fn attribute_complete(directory: Seq<u8>, values: Seq<ValueView>) -> bool {
    &&& values.len() >= 5
    &&& values[4] is Ok
    &&& type_fields(values[4]->Ok_0) is Some
    &&& values.len() == attribute_fields(values).len()
    &&& forall|i: int|
        0 <= i < values.len() ==> field_error(
            #[trigger] attribute_fields(values)[i],
            directory,
            values[i],
        ) is None
}

/// The field at position `index` of the extra fields of the type called
/// `text`.
fn type_field(text: &str, index: usize) -> (r: Option<Field>)
    ensures
        r == match type_fields(text@) {
            Some(fields) => if index < fields.len() {
                Some(fields[index as int])
            } else {
                None
            },
            None => None,
        },
{
    if same_text(text, "enumeration") {
        if index == 0 {
            Some(Field::PossibleValues)
        } else {
            None
        }
    } else if same_text(text, "integer") {
        if index == 0 {
            Some(Field::MinValue)
        } else if index == 1 {
            Some(Field::MaxValue)
        } else if index == 2 {
            Some(Field::ScalarIncrement)
        } else {
            None
        }
    } else if same_text(text, "string") {
        if index == 0 {
            Some(Field::MinLength)
        } else if index == 1 {
            Some(Field::MaxLength)
        } else {
            None
        }
    } else {
        None
    }
}

/// Whether `text` names a known attribute type.
fn known_type(text: &str) -> (r: bool)
    ensures
        r == type_fields(text@) is Some,
{
    same_text(text, "enumeration") || same_text(text, "integer") || same_text(text, "string")
}

/// The field at position `index` among the fields of the attribute whose
/// first fields hold `values`.
fn scheduled(values: &Vec<Value>, index: usize) -> (r: Option<Field>)
    ensures
        r == if index < attribute_fields(values_view(values@)).len() {
            Some(attribute_fields(values_view(values@))[index as int])
        } else {
            None
        },
{
    if index == 0 {
        Some(Field::DisplayName)
    } else if index == 1 {
        Some(Field::DisplayNameLanguageCode)
    } else if index == 2 {
        Some(Field::CurrentValue)
    } else if index == 3 {
        Some(Field::DefaultValue)
    } else if index == 4 {
        Some(Field::Type)
    } else if values.len() >= 5 {
        match &values[4] {
            Ok(text) => type_field(text.as_str(), index - 5),
            Err(_) => None,
        }
    } else {
        None
    }
}

/// The typed constraints that the type-dependent fields of a complete
/// attribute hold.
fn build_type(values: &Vec<Value>, directory: Ghost<Seq<u8>>) -> (r: AttributeType)
    requires
        attribute_complete(directory@, values_view(values@)),
    ensures
        r@ == attribute_type(values_view(values@)[4]->Ok_0, values_view(values@).skip(5)),
{
    let ghost all = values_view(values@);
    let ghost fields = attribute_fields(all);
    let ghost extra = all.skip(5);
    let text = text_of(&values[4]);
    if same_text(text, "enumeration") {
        assert(extra[0] == all[5] && fields[5] == Field::PossibleValues);
        AttributeType::Enumeration { possible_values: split(text_of(&values[5]), ';') }
    } else if same_text(text, "integer") {
        assert(extra[0] == all[5] && fields[5] == Field::MinValue);
        assert(extra[1] == all[6] && fields[6] == Field::MaxValue);
        assert(extra[2] == all[7] && fields[7] == Field::ScalarIncrement);
        AttributeType::Integer {
            min: signed_number(text_of(&values[5])),
            max: signed_number(text_of(&values[6])),
            step: unsigned_number(text_of(&values[7])),
        }
    } else {
        assert(extra[0] == all[5] && fields[5] == Field::MinLength);
        assert(extra[1] == all[6] && fields[6] == Field::MaxLength);
        AttributeType::String {
            min_length: unsigned_number(text_of(&values[5])),
            max_length: unsigned_number(text_of(&values[6])),
        }
    }
}

/// The attribute that the fields of a complete reading describe.
fn build(device_path: Vec<u8>, name: Vec<u8>, values: Vec<Value>, directory: Ghost<Seq<u8>>) -> (r:
    Attribute)
    requires
        attribute_complete(directory@, values_view(values@)),
    ensures
        r@ == assemble(device_path@, name@, values_view(values@)),
{
    let mut values = values;
    let ghost all = values_view(values@);
    let tpe = build_type(&values, directory);
    assert(attribute_fields(all)[0] == Field::DisplayName);
    assert(attribute_fields(all)[1] == Field::DisplayNameLanguageCode);
    values.truncate(4);
    let default_value = values.pop().unwrap();
    let current_value = values.pop().unwrap();
    let display_name_lang = values.pop().unwrap().unwrap();
    let display_name = values.pop().unwrap().unwrap();
    Attribute {
        device_path,
        name,
        tpe,
        current_value,
        default_value,
        display_name,
        display_name_lang,
    }
}

/// The reading of one attribute in progress: some of its files have been
/// read, all of them usable, and one more is wanted.
#[derive(Debug, PartialEq, Eq)]
pub struct AttributeReader {
    device_path: Vec<u8>,
    name: Vec<u8>,
    directory: Vec<u8>,
    values: Vec<Value>,
}

/// Where the reading of one attribute stands.
#[derive(Debug, PartialEq, Eq)]
pub enum AttributeProbe {
    /// The file at `path()` of the reader is to be read and its outcome
    /// handed to `supply`.
    Read(AttributeReader),
    /// The entry is decided.
    Done(AttributeEntry),
}

impl AttributeReader {
    #[verifier::type_invariant]
    spec fn valid(&self) -> bool {
        let values = values_view(self.values@);
        &&& self.directory@ == attribute_directory(self.device_path@, self.name@)
        &&& values.len() < attribute_fields(values).len()
        &&& values.len() >= 5 ==> values[4] is Ok && type_fields(values[4]->Ok_0) is Some
        &&& forall|i: int|
            0 <= i < values.len() ==> field_error(
                #[trigger] attribute_fields(values)[i],
                self.directory@,
                values[i],
            ) is None
    }

    /// The directory of the device that is being read.
    pub closed spec fn device_path(&self) -> Seq<u8> {
        self.device_path@
    }

    /// The name of the attribute that is being read.
    pub closed spec fn name(&self) -> Seq<u8> {
        self.name@
    }

    /// The values that have been read so far, in the order in which they
    /// were asked for.
    pub closed spec fn values(&self) -> Seq<ValueView> {
        values_view(self.values@)
    }

    /// The field that is wanted next.
    pub open spec fn awaited(&self) -> Field {
        attribute_fields(self.values())[self.values().len() as int]
    }

    /// The file that is wanted next.
    pub open spec fn awaited_path(&self) -> Seq<u8> {
        self.awaited().path_in(attribute_directory(self.device_path(), self.name()))
    }

    /// Begins the reading of the directory entry `entry` of the attributes
    /// directory of `device`.
    pub fn begin(device: &Device, entry: Result<DirectoryEntry, IoFailure>) -> (r: AttributeProbe)
        ensures
            r@ == attribute_start(device.root(), entry_view(entry)),
    {
        match entry {
            Err(failure) => AttributeProbe::Done(
                AttributeEntry::Skipped(SkipReason::Entry(failure)),
            ),
            Ok(DirectoryEntry { name, is_dir: Err(failure) }) => AttributeProbe::Done(
                AttributeEntry::Skipped(SkipReason::Kind(failure)),
            ),
            Ok(DirectoryEntry { name, is_dir: Ok(false) }) => AttributeProbe::Done(
                AttributeEntry::Ignored,
            ),
            Ok(DirectoryEntry { name, is_dir: Ok(true) }) => {
                let attributes = device.attributes_path();
                let directory = join_path(attributes.as_slice(), name.as_slice());
                let values: Vec<Value> = Vec::new();
                proof {
                    assert(values_view(values@) == Seq::<ValueView>::empty());
                }
                AttributeProbe::Read(
                    AttributeReader {
                        device_path: copy_bytes(device.path()),
                        name,
                        directory,
                        values,
                    },
                )
            },
        }
    }

    /// The field that is wanted next.
    pub fn field(&self) -> (r: Field)
        ensures
            r == self.awaited(),
    {
        proof {
            use_type_invariant(self);
        }
        match scheduled(&self.values, self.values.len()) {
            Some(field) => field,
            None => vstd::pervasive::unreached(),
        }
    }

    /// The file that is wanted next.
    pub fn path(&self) -> (r: Vec<u8>)
        ensures
            r@ == self.awaited_path(),
    {
        proof {
            use_type_invariant(self);
        }
        self.field().file_path(self.directory.as_slice())
    }

    /// Takes the outcome `raw` of reading the wanted file and says how the
    /// reading goes on.
    pub fn supply(self, raw: RawRead) -> (r: AttributeProbe)
        ensures
            r@ == attribute_step(
                self.device_path(),
                self.name(),
                self.values().push(value_of(self.awaited_path(), raw_view(raw))),
            ),
    {
        proof {
            use_type_invariant(&self);
        }
        let field = self.field();
        let AttributeReader { device_path, name, directory, mut values } = self;
        let ghost before = values_view(values@);
        let value = read_value(directory.as_slice(), field.file_name(), raw);
        let ghost read = value_view(value);
        let failed = check_field(field, directory.as_slice(), &value);
        values.push(value);
        let ghost after = values_view(values@);
        proof {
            assert(after == before.push(read));
            assert(attribute_fields(before).len() >= 5);
            assert forall|i: int| 0 <= i <= before.len() implies attribute_fields(after)[i]
                == attribute_fields(before)[i] by {
                if before.len() >= 5 {
                    assert(after[4] == before[4]);
                }
            }
        }
        match failed {
            Some(error) => AttributeProbe::Done(
                AttributeEntry::Skipped(SkipReason::Field(error)),
            ),
            None => {
                let count: usize = values.len();
                if count == 5 && !known_type(text_of(&values[4])) {
                    let text = String::from_str(text_of(&values[4]));
                    AttributeProbe::Done(AttributeEntry::Skipped(SkipReason::UnknownType(text)))
                } else {
                    match scheduled(&values, count) {
                        Some(_) => AttributeProbe::Read(
                            AttributeReader { device_path, name, directory, values },
                        ),
                        None => AttributeProbe::Done(
                            AttributeEntry::Found(
                                build(device_path, name, values, Ghost(directory@)),
                            ),
                        ),
                    }
                }
            },
        }
    }
}

impl View for AttributeProbe {
    type V = AttributeProbeView;

    open spec fn view(&self) -> AttributeProbeView {
        match self {
            AttributeProbe::Read(reader) => AttributeProbeView::Read {
                device_path: reader.device_path(),
                name: reader.name(),
                values: reader.values(),
            },
            AttributeProbe::Done(entry) => AttributeProbeView::Done(entry@),
        }
    }
}

} // verus!
