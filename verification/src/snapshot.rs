//! What an enumeration means, stated over a snapshot of the directory tree,
//! and the laws that connect the file-by-file reading to that meaning.

use vstd::prelude::*;
use crate::attribute::{AttributeEntryView, AttributeView};
use crate::attribute_reader::{
    attribute_fields,
    attribute_start,
    attribute_step,
    attribute_type,
    common_fields,
    type_fields,
    AttributeProbeView,
};
use crate::attribute_catalog::{found_attributes, skip_reasons};
use crate::authentication::AuthenticationEntryView;
use crate::authentication_reader::{
    assemble_method,
    authentication_fields,
    authentication_start,
    authentication_step,
    method_directory,
    AuthenticationProbeView,
};
use crate::entry::SkipReasonView;
use crate::device::attribute_directory;
use crate::field::{field_error, FieldErrorView};
use crate::layout::Field;
use crate::value::{IoFailure, ValueView, value_of};

verus! {

/// What reading each file of one entry gives at one moment.
pub type Files = spec_fn(Field) -> Result<Seq<char>, IoFailure>;

/// One entry of a directory at one moment: its name, whether it is a
/// directory, and what its files hold.
pub struct EntrySnapshot {
    pub name: Seq<u8>,
    pub is_dir: Result<bool, IoFailure>,
    pub files: Files,
}

/// One item of a directory listing at one moment: an entry, or the failure
/// to read it from the directory.
pub type ListedEntry = Result<EntrySnapshot, IoFailure>;

/// The value of `field` of the entry kept in `directory`.
pub open spec fn read_field(directory: Seq<u8>, files: Files, field: Field) -> ValueView {
    value_of(field.path_in(directory), files(field))
}

/// The values of `fields` of the entry kept in `directory`.
pub open spec fn read_fields(directory: Seq<u8>, files: Files, fields: Seq<Field>) -> Seq<
    ValueView,
> {
    fields.map_values(|field: Field| read_field(directory, files, field))
}

/// The error of the first of `fields` that is unusable, if any is.
pub open spec fn first_field_error(directory: Seq<u8>, files: Files, fields: Seq<Field>) -> Option<
    FieldErrorView,
>
    decreases fields.len(),
{
    if fields.len() == 0 {
        None
    } else {
        match field_error(fields[0], directory, read_field(directory, files, fields[0])) {
            Some(error) => Some(error),
            None => first_field_error(directory, files, fields.skip(1)),
        }
    }
}

/// What the directory called `name` under the attributes of the device kept
/// in `root` describes.
///
/// Its display name, language code and type are required, and so are the
/// fields that its type calls for; the first of these that is unusable
/// decides the reason for which the entry is skipped.  The current and the
/// default value are kept as they are, readable or not.
pub open spec fn described_attribute(root: Seq<u8>, name: Seq<u8>, files: Files)
    -> AttributeEntryView {
    let directory = attribute_directory(root, name);
    match first_field_error(directory, files, common_fields()) {
        Some(error) => AttributeEntryView::Skipped(SkipReasonView::Field(error)),
        None => {
            let kind = read_field(directory, files, Field::Type)->Ok_0;
            match type_fields(kind) {
                None => AttributeEntryView::Skipped(SkipReasonView::UnknownType(kind)),
                Some(fields) => match first_field_error(directory, files, fields) {
                    Some(error) => AttributeEntryView::Skipped(SkipReasonView::Field(error)),
                    None => AttributeEntryView::Found(
                        AttributeView {
                            device_path: root,
                            name,
                            tpe: attribute_type(kind, read_fields(directory, files, fields)),
                            current_value: read_field(directory, files, Field::CurrentValue),
                            default_value: read_field(directory, files, Field::DefaultValue),
                            display_name: read_field(directory, files, Field::DisplayName)->Ok_0,
                            display_name_lang: read_field(
                                directory,
                                files,
                                Field::DisplayNameLanguageCode,
                            )->Ok_0,
                        },
                    ),
                },
            }
        },
    }
}

/// What becomes of one item of the listing of the attributes directory of
/// the device kept in `root`.
pub open spec fn enumerated_attribute(root: Seq<u8>, item: ListedEntry) -> AttributeEntryView {
    match item {
        Err(failure) => AttributeEntryView::Skipped(SkipReasonView::Entry(failure)),
        Ok(entry) => match entry.is_dir {
            Err(failure) => AttributeEntryView::Skipped(SkipReasonView::Kind(failure)),
            Ok(false) => AttributeEntryView::Ignored,
            Ok(true) => described_attribute(root, entry.name, entry.files),
        },
    }
}

/// Where the reading of an attribute ends up when it starts with `values`
/// read and every file that is asked for holds what `files` says, within
/// `fuel` more reads.
pub open spec fn attribute_run(
    root: Seq<u8>,
    name: Seq<u8>,
    files: Files,
    values: Seq<ValueView>,
    fuel: nat,
) -> AttributeProbeView
    decreases fuel,
{
    let now = attribute_step(root, name, values);
    if fuel == 0 || now is Done {
        now
    } else {
        let wanted = attribute_fields(values)[values.len() as int];
        let value = read_field(attribute_directory(root, name), files, wanted);
        attribute_run(root, name, files, values.push(value), (fuel - 1) as nat)
    }
}

/// Reading an attribute file by file gives what the snapshot describes.
///
/// Whatever the files of an entry hold, the reading that starts with
/// nothing read and is handed, for each file it asks for, what that file
/// holds, is decided after at most eight reads, and decides the entry as
/// [`described_attribute`] says.
pub proof fn reading_yields_description(root: Seq<u8>, name: Seq<u8>, files: Files)
    ensures
        attribute_run(root, name, files, Seq::empty(), 8) == AttributeProbeView::Done(
            described_attribute(root, name, files),
        ),
{
    let directory = attribute_directory(root, name);
    let read = |field: Field| read_field(directory, files, field);
    let common = common_fields();
    reveal_with_fuel(attribute_run, 9);
    reveal_with_fuel(first_field_error, 6);
    let v0 = Seq::<ValueView>::empty();
    let v1 = v0.push(read(Field::DisplayName));
    let v2 = v1.push(read(Field::DisplayNameLanguageCode));
    let v3 = v2.push(read(Field::CurrentValue));
    let v4 = v3.push(read(Field::DefaultValue));
    let v5 = v4.push(read(Field::Type));
    assert(common.skip(1).skip(1).skip(1).skip(1).skip(1).len() == 0);
    assert(common.skip(1)[0] == Field::DisplayNameLanguageCode);
    assert(common.skip(1).skip(1)[0] == Field::CurrentValue);
    assert(common.skip(1).skip(1).skip(1)[0] == Field::DefaultValue);
    assert(common.skip(1).skip(1).skip(1).skip(1)[0] == Field::Type);
    assert(attribute_fields(v0) == common);
    assert(attribute_fields(v1) == common);
    assert(attribute_fields(v2) == common);
    assert(attribute_fields(v3) == common);
    assert(attribute_fields(v4) == common);
    if first_field_error(directory, files, common) is None {
        let kind = read(Field::Type)->Ok_0;
        assert(v5[4] == read(Field::Type));
        if type_fields(kind) is Some {
            let extra = type_fields(kind)->Some_0;
            let fields = common + extra;
            assert(attribute_fields(v5) == fields);
            assert(fields[5] == extra[0]);
            let v6 = v5.push(read(extra[0]));
            assert(v6[4] == v5[4]);
            assert(attribute_fields(v6) == fields);
            if kind == "enumeration"@ {
                assert(extra.skip(1).len() == 0);
                assert(v6.skip(5) == read_fields(directory, files, extra));
            } else if kind == "integer"@ {
                assert(fields[6] == extra[1]);
                assert(fields[7] == extra[2]);
                assert(extra.skip(1)[0] == extra[1]);
                assert(extra.skip(1).skip(1)[0] == extra[2]);
                assert(extra.skip(1).skip(1).skip(1).len() == 0);
                let v7 = v6.push(read(extra[1]));
                let v8 = v7.push(read(extra[2]));
                assert(v7[4] == v5[4]);
                assert(v8[4] == v5[4]);
                assert(attribute_fields(v7) == fields);
                assert(attribute_fields(v8) == fields);
                assert(v8.skip(5) == read_fields(directory, files, extra));
            } else {
                assert(fields[6] == extra[1]);
                assert(extra.skip(1)[0] == extra[1]);
                assert(extra.skip(1).skip(1).len() == 0);
                let v7 = v6.push(read(extra[1]));
                assert(v7[4] == v5[4]);
                assert(attribute_fields(v7) == fields);
                assert(v7.skip(5) == read_fields(directory, files, extra));
            }
        }
    }
}

/// What a listing says of an item before any of its files is read.
pub open spec fn listed(item: ListedEntry) -> Result<(Seq<u8>, Result<bool, IoFailure>), IoFailure> {
    match item {
        Ok(entry) => Ok((entry.name, entry.is_dir)),
        Err(failure) => Err(failure),
    }
}

/// Where the reading of one item of the attributes listing ends up: some
/// items are decided before any file is read, and a directory is read file
/// by file.
pub open spec fn attribute_reading(root: Seq<u8>, item: ListedEntry) -> AttributeProbeView {
    match attribute_start(root, listed(item)) {
        AttributeProbeView::Read { .. } => attribute_run(
            root,
            item->Ok_0.name,
            item->Ok_0.files,
            Seq::empty(),
            8,
        ),
        decided => decided,
    }
}

/// Reading any item of a listing decides it as [`enumerated_attribute`]
/// says.
pub proof fn item_reading_yields_enumeration(root: Seq<u8>, item: ListedEntry)
    ensures
        attribute_reading(root, item) == AttributeProbeView::Done(
            enumerated_attribute(root, item),
        ),
{
    if item is Ok {
        reading_yields_description(root, item->Ok_0.name, item->Ok_0.files);
    }
}

/// What becomes of each item of a listing of the attributes directory of
/// the device kept in `root`.
pub open spec fn enumerated(root: Seq<u8>, listing: Seq<ListedEntry>) -> Seq<AttributeEntryView> {
    listing.map_values(|item: ListedEntry| enumerated_attribute(root, item))
}

/// The attributes that an enumeration of `listing` yields.
pub open spec fn enumerate(root: Seq<u8>, listing: Seq<ListedEntry>) -> Seq<AttributeView> {
    found_attributes(enumerated(root, listing))
}

/// Whether `item` is a directory whose display name, language code and
/// type can be read and whose type is a known one.
pub open spec fn is_typed_directory(root: Seq<u8>, item: ListedEntry) -> bool {
    &&& item matches Ok(entry)
    &&& entry.is_dir == Ok::<bool, IoFailure>(true)
    &&& read_field(attribute_directory(root, entry.name), entry.files, Field::DisplayName) is Ok
    &&& read_field(
        attribute_directory(root, entry.name),
        entry.files,
        Field::DisplayNameLanguageCode,
    ) is Ok
    &&& read_field(attribute_directory(root, entry.name), entry.files, Field::Type) matches Ok(kind)
    &&& type_fields(kind) is Some
}

/// Whether `item`, if it is a typed directory, holds every field that its
/// type calls for, each of them a number where a number is expected.
pub open spec fn is_well_formed(root: Seq<u8>, item: ListedEntry) -> bool {
    is_typed_directory(root, item) ==> {
        let entry = item->Ok_0;
        let directory = attribute_directory(root, entry.name);
        let kind = read_field(directory, entry.files, Field::Type)->Ok_0;
        first_field_error(directory, entry.files, type_fields(kind)->Some_0) is None
    }
}

/// A well-formed item yields an attribute exactly if it is a typed
/// directory, and the attribute then bears the name of the directory.
pub proof fn typed_directory_is_found(root: Seq<u8>, item: ListedEntry)
    requires
        is_well_formed(root, item),
    ensures
        enumerated_attribute(root, item) is Found <==> is_typed_directory(root, item),
        enumerated_attribute(root, item) matches AttributeEntryView::Found(attribute)
            ==> attribute.name == item->Ok_0.name && attribute.device_path == root,
{
    reveal_with_fuel(first_field_error, 6);
    let common = common_fields();
    assert(common.skip(1)[0] == Field::DisplayNameLanguageCode);
    assert(common.skip(1).skip(1)[0] == Field::CurrentValue);
    assert(common.skip(1).skip(1).skip(1)[0] == Field::DefaultValue);
    assert(common.skip(1).skip(1).skip(1).skip(1)[0] == Field::Type);
    assert(common.skip(1).skip(1).skip(1).skip(1).skip(1).len() == 0);
}

/// The directories among `listing` that are typed, in order.
pub open spec fn typed_directories(root: Seq<u8>, listing: Seq<ListedEntry>) -> Seq<ListedEntry> {
    listing.filter(|item: ListedEntry| is_typed_directory(root, item))
}

/// An enumeration of a well-formed directory yields exactly one attribute
/// for each entry that is a directory with a display name, a language code
/// and a known type, in the order of the listing and under the name of the
/// entry.  Every other entry is left out.
pub proof fn enumeration_lists_typed_directories(root: Seq<u8>, listing: Seq<ListedEntry>)
    requires
        forall|i: int| 0 <= i < listing.len() ==> is_well_formed(root, #[trigger] listing[i]),
    ensures
        enumerate(root, listing).len() == typed_directories(root, listing).len(),
        forall|i: int|
            0 <= i < enumerate(root, listing).len() ==> (#[trigger] enumerate(
                root,
                listing,
            )[i]).name == typed_directories(root, listing)[i]->Ok_0.name,
    decreases listing.len(),
{
    let typed = |item: ListedEntry| is_typed_directory(root, item);
    if listing.len() == 0 {
        assert(enumerated(root, listing).len() == 0);
    } else {
        let before = listing.drop_last();
        let last = listing.last();
        enumeration_lists_typed_directories(root, before);
        typed_directory_is_found(root, last);
        assert(enumerated(root, listing).drop_last() == enumerated(root, before));
        assert(enumerated(root, listing).last() == enumerated_attribute(root, last));
        reveal_with_fuel(Seq::filter, 2);
        assert(typed_directories(root, listing) == if typed(last) {
            typed_directories(root, before).push(last)
        } else {
            typed_directories(root, before)
        });
    }
}

/// The attribute that one entry adds to the result, as a sequence of none
/// or one.
pub open spec fn attribute_in(entry: AttributeEntryView) -> Seq<AttributeView> {
    match entry {
        AttributeEntryView::Found(attribute) => seq![attribute],
        _ => Seq::empty(),
    }
}

/// The skip reason that one entry adds to the result, as a sequence of none
/// or one.
pub open spec fn reason_in(entry: AttributeEntryView) -> Seq<SkipReasonView> {
    match entry {
        AttributeEntryView::Skipped(reason) => seq![reason],
        _ => Seq::empty(),
    }
}

/// Each entry decides for itself what it adds: putting an entry anywhere
/// into a listing puts what it adds at the matching place of the results
/// and changes nothing else.
pub proof fn entry_adds_its_own(entries: Seq<AttributeEntryView>, at: int, entry: AttributeEntryView)
    requires
        0 <= at <= entries.len(),
    ensures
        found_attributes(entries.insert(at, entry)) == found_attributes(entries.take(at))
            + attribute_in(entry) + found_attributes(entries.skip(at)),
        found_attributes(entries) == found_attributes(entries.take(at)) + found_attributes(
            entries.skip(at),
        ),
        skip_reasons(entries.insert(at, entry)) == skip_reasons(entries.take(at)) + reason_in(entry)
            + skip_reasons(entries.skip(at)),
        skip_reasons(entries) == skip_reasons(entries.take(at)) + skip_reasons(entries.skip(at)),
    decreases entries.len() - at,
{
    let longer = entries.insert(at, entry);
    if at == entries.len() {
        assert(entries.take(at) == entries);
        assert(entries.skip(at).len() == 0);
        assert(longer.drop_last() == entries);
        assert(longer.last() == entry);
    } else {
        let shorter = entries.drop_last();
        entry_adds_its_own(shorter, at, entry);
        assert(longer.drop_last() == shorter.insert(at, entry));
        assert(longer.last() == entries.last());
        assert(shorter.take(at) == entries.take(at));
        assert(entries.skip(at).drop_last() == shorter.skip(at));
        assert(entries.skip(at).last() == entries.last());
    }
}

/// An entry that is not a directory leaves no trace: with or without it,
/// the enumeration yields the same attributes and the same skip reasons.
pub proof fn stray_file_leaves_no_trace(root: Seq<u8>, listing: Seq<ListedEntry>, at: int)
    requires
        0 <= at < listing.len(),
        listing[at] matches Ok(entry) && entry.is_dir == Ok::<bool, IoFailure>(false),
    ensures
        enumerated_attribute(root, listing[at]) == AttributeEntryView::Ignored,
        found_attributes(enumerated(root, listing)) == found_attributes(
            enumerated(root, listing.remove(at)),
        ),
        skip_reasons(enumerated(root, listing)) == skip_reasons(
            enumerated(root, listing.remove(at)),
        ),
{
    let all = enumerated(root, listing);
    let others = enumerated(root, listing.remove(at));
    assert(all == others.insert(at, AttributeEntryView::Ignored));
    entry_adds_its_own(others, at, AttributeEntryView::Ignored);
}

/// Mapping two listings that hold the same items, in whatever order, gives
/// two sequences that hold the same items.
proof fn same_items_after_map<A, B>(a: Seq<A>, b: Seq<A>, f: spec_fn(A) -> B)
    requires
        a.to_multiset() == b.to_multiset(),
    ensures
        a.map_values(f).to_multiset() == b.map_values(f).to_multiset(),
    decreases a.len(),
{
    broadcast use vstd::seq_lib::group_to_multiset_ensures;

    if a.len() == 0 {
        vstd::seq_lib::to_multiset_len(a);
        vstd::seq_lib::to_multiset_len(b);
        assert(b.len() == 0);
        assert(a.map_values(f) == b.map_values(f));
    } else {
        let last = a.last();
        let shorter = a.drop_last();
        assert(a == shorter.push(last));
        assert(b.to_multiset().count(last) > 0);
        assert(b.contains(last));
        let at = choose|i: int| 0 <= i < b.len() && b[i] == last;
        let others = b.remove(at);
        assert(others.to_multiset() =~= shorter.to_multiset());
        same_items_after_map(shorter, others, f);
        assert(a.map_values(f) == shorter.map_values(f).push(f(last)));
        assert(b.map_values(f) == others.map_values(f).insert(at, f(last)));
        vstd::seq_lib::to_multiset_insert(others.map_values(f), at, f(last));
    }
}

/// The results of an enumeration do not depend on the order of the listing:
/// entries that hold the same items in another order give the same
/// attributes and the same skip reasons, in another order.
pub proof fn results_ignore_order(a: Seq<AttributeEntryView>, b: Seq<AttributeEntryView>)
    requires
        a.to_multiset() == b.to_multiset(),
    ensures
        found_attributes(a).to_multiset() == found_attributes(b).to_multiset(),
        skip_reasons(a).to_multiset() == skip_reasons(b).to_multiset(),
    decreases a.len(),
{
    broadcast use vstd::seq_lib::group_to_multiset_ensures;

    if a.len() == 0 {
        vstd::seq_lib::to_multiset_len(a);
        vstd::seq_lib::to_multiset_len(b);
        assert(b.len() == 0);
        assert(a == b);
    } else {
        let last = a.last();
        let shorter = a.drop_last();
        assert(a == shorter.push(last));
        assert(b.to_multiset().count(last) > 0);
        assert(b.contains(last));
        let at = choose|i: int| 0 <= i < b.len() && b[i] == last;
        let others = b.remove(at);
        assert(others.to_multiset() =~= shorter.to_multiset());
        results_ignore_order(shorter, others);
        assert(b == others.insert(at, last));
        entry_adds_its_own(others, at, last);
        entry_adds_its_own(shorter, shorter.len() as int, last);
        assert(shorter.insert(shorter.len() as int, last) == a);
        assert(shorter.take(shorter.len() as int) == shorter);
        assert(shorter.skip(shorter.len() as int).len() == 0);
        vstd::seq_lib::lemma_multiset_commutative(
            found_attributes(others.take(at)) + attribute_in(last),
            found_attributes(others.skip(at)),
        );
        vstd::seq_lib::lemma_multiset_commutative(
            found_attributes(others.take(at)),
            attribute_in(last),
        );
        vstd::seq_lib::lemma_multiset_commutative(
            found_attributes(others.take(at)),
            found_attributes(others.skip(at)),
        );
        vstd::seq_lib::lemma_multiset_commutative(found_attributes(shorter), attribute_in(last));
        vstd::seq_lib::lemma_multiset_commutative(
            skip_reasons(others.take(at)) + reason_in(last),
            skip_reasons(others.skip(at)),
        );
        vstd::seq_lib::lemma_multiset_commutative(skip_reasons(others.take(at)), reason_in(last));
        vstd::seq_lib::lemma_multiset_commutative(
            skip_reasons(others.take(at)),
            skip_reasons(others.skip(at)),
        );
        vstd::seq_lib::lemma_multiset_commutative(skip_reasons(shorter), reason_in(last));
        assert(found_attributes(a).to_multiset() =~= found_attributes(b).to_multiset());
        assert(skip_reasons(a).to_multiset() =~= skip_reasons(b).to_multiset());
    }
}

/// Enumerating the same unmodified directory again gives the same set of
/// attributes, whatever the order in which the directory is listed.
pub proof fn enumeration_is_repeatable(root: Seq<u8>, first: Seq<ListedEntry>, second: Seq<
    ListedEntry,
>)
    requires
        first.to_multiset() == second.to_multiset(),
    ensures
        enumerate(root, first).to_multiset() == enumerate(root, second).to_multiset(),
        first == second ==> enumerate(root, first) == enumerate(root, second),
{
    same_items_after_map(first, second, |item: ListedEntry| enumerated_attribute(root, item));
    results_ignore_order(enumerated(root, first), enumerated(root, second));
}

/// The files of an entry after its current value has been overwritten and
/// the file then holds `raw`.
pub open spec fn with_current_value(files: Files, raw: Result<Seq<char>, IoFailure>) -> Files {
    |field: Field|
        if field == Field::CurrentValue {
            raw
        } else {
            files(field)
        }
}

/// Setting a value agrees with a fresh enumeration: an attribute whose
/// current value is replaced by what its file holds after the write is the
/// attribute that an enumeration finds afterwards, as long as nothing else
/// has changed.
pub proof fn written_value_is_what_enumeration_finds(
    root: Seq<u8>,
    name: Seq<u8>,
    files: Files,
    raw: Result<Seq<char>, IoFailure>,
)
    requires
        described_attribute(root, name, files) is Found,
    ensures
        ({
            let before = described_attribute(root, name, files)->Found_0;
            &&& before.value_path() == Field::CurrentValue.path_in(
                attribute_directory(root, name),
            )
            &&& described_attribute(root, name, with_current_value(files, raw))
                == AttributeEntryView::Found(
                AttributeView { current_value: value_of(before.value_path(), raw), ..before },
            )
        }),
{
    let directory = attribute_directory(root, name);
    let after = with_current_value(files, raw);
    reveal_with_fuel(first_field_error, 6);
    let common = common_fields();
    assert(common.skip(1)[0] == Field::DisplayNameLanguageCode);
    assert(common.skip(1).skip(1)[0] == Field::CurrentValue);
    assert(common.skip(1).skip(1).skip(1)[0] == Field::DefaultValue);
    assert(common.skip(1).skip(1).skip(1).skip(1)[0] == Field::Type);
    assert(common.skip(1).skip(1).skip(1).skip(1).skip(1).len() == 0);
    let kind = read_field(directory, files, Field::Type)->Ok_0;
    let fields = type_fields(kind)->Some_0;
    assert(read_fields(directory, after, fields) == read_fields(directory, files, fields));
    if kind == "enumeration"@ {
        assert(fields.skip(1).len() == 0);
    } else if kind == "integer"@ {
        assert(fields.skip(1)[0] == fields[1]);
        assert(fields.skip(1).skip(1)[0] == fields[2]);
        assert(fields.skip(1).skip(1).skip(1).len() == 0);
    } else {
        assert(fields.skip(1)[0] == fields[1]);
        assert(fields.skip(1).skip(1).len() == 0);
    }
}

/// What the directory called `name` under the authentication methods of
/// the device kept in `root` describes.  All four fields are required; the
/// first that is unusable decides the reason for which the entry is
/// skipped.
pub open spec fn described_method(root: Seq<u8>, name: Seq<u8>, files: Files)
    -> AuthenticationEntryView {
    let directory = method_directory(root, name);
    match first_field_error(directory, files, authentication_fields()) {
        Some(error) => AuthenticationEntryView::Skipped(SkipReasonView::Field(error)),
        None => AuthenticationEntryView::Found(
            assemble_method(name, read_fields(directory, files, authentication_fields())),
        ),
    }
}

/// What becomes of one item of the listing of the authentication directory
/// of the device kept in `root`.
pub open spec fn enumerated_method(root: Seq<u8>, item: ListedEntry) -> AuthenticationEntryView {
    match item {
        Err(failure) => AuthenticationEntryView::Skipped(SkipReasonView::Entry(failure)),
        Ok(entry) => match entry.is_dir {
            Err(failure) => AuthenticationEntryView::Skipped(SkipReasonView::Kind(failure)),
            Ok(false) => AuthenticationEntryView::Ignored,
            Ok(true) => described_method(root, entry.name, entry.files),
        },
    }
}

/// Where the reading of an authentication method ends up when it starts
/// with `values` read and every file that is asked for holds what `files`
/// says, within `fuel` more reads.
pub open spec fn authentication_run(
    root: Seq<u8>,
    name: Seq<u8>,
    files: Files,
    values: Seq<ValueView>,
    fuel: nat,
) -> AuthenticationProbeView
    decreases fuel,
{
    let now = authentication_step(root, name, values);
    if fuel == 0 || now is Done {
        now
    } else {
        let wanted = authentication_fields()[values.len() as int];
        let value = read_field(method_directory(root, name), files, wanted);
        authentication_run(root, name, files, values.push(value), (fuel - 1) as nat)
    }
}

/// Reading an authentication method file by file gives what the snapshot
/// describes, after at most four reads.
pub proof fn method_reading_yields_description(root: Seq<u8>, name: Seq<u8>, files: Files)
    ensures
        authentication_run(root, name, files, Seq::empty(), 4) == AuthenticationProbeView::Done(
            described_method(root, name, files),
        ),
{
    let directory = method_directory(root, name);
    let read = |field: Field| read_field(directory, files, field);
    let fields = authentication_fields();
    reveal_with_fuel(authentication_run, 5);
    reveal_with_fuel(first_field_error, 5);
    assert(fields.skip(1)[0] == Field::MinPasswordLength);
    assert(fields.skip(1).skip(1)[0] == Field::MaxPasswordLength);
    assert(fields.skip(1).skip(1).skip(1)[0] == Field::Role);
    assert(fields.skip(1).skip(1).skip(1).skip(1).len() == 0);
    let v1 = Seq::<ValueView>::empty().push(read(Field::IsEnabled));
    let v2 = v1.push(read(Field::MinPasswordLength));
    let v3 = v2.push(read(Field::MaxPasswordLength));
    let v4 = v3.push(read(Field::Role));
    assert(v4 == read_fields(directory, files, fields));
}

/// Where the reading of one item of the authentication listing ends up.
pub open spec fn method_reading(root: Seq<u8>, item: ListedEntry) -> AuthenticationProbeView {
    match authentication_start(root, listed(item)) {
        AuthenticationProbeView::Read { .. } => authentication_run(
            root,
            item->Ok_0.name,
            item->Ok_0.files,
            Seq::empty(),
            4,
        ),
        decided => decided,
    }
}

/// Reading any item of a listing decides it as [`enumerated_method`] says.
pub proof fn item_reading_yields_method(root: Seq<u8>, item: ListedEntry)
    ensures
        method_reading(root, item) == AuthenticationProbeView::Done(enumerated_method(root, item)),
{
    if item is Ok {
        method_reading_yields_description(root, item->Ok_0.name, item->Ok_0.files);
    }
}

} // verus!
