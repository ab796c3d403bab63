//! Reading one authentication method, one file at a time, in the same
//! way as an attribute is read.

use vstd::prelude::*;
use crate::authentication::{
    enabled_of,
    role_of,
    Authentication,
    AuthenticationEntry,
    AuthenticationEntryView,
    AuthenticationRole,
    AuthenticationView,
};
use crate::device::{authentication_directory, Device};
use crate::entry::{entry_view, text_of, values_view, DirectoryEntry, SkipReason, SkipReasonView};
use crate::field::{check_field, field_error, number_of, unsigned_number};
use crate::layout::{Field, Format};
use crate::path::{copy_bytes, join, join_path};
use crate::text::same_text;
use crate::value::{IoFailure, RawRead, Value, ValueView, raw_view, read_value, value_of, value_view};

verus! {

/// The fields of an authentication method, in the order in which they are
/// read.  All of them are required.
pub open spec fn authentication_fields() -> Seq<Field> {
    seq![Field::IsEnabled, Field::MinPasswordLength, Field::MaxPasswordLength, Field::Role]
}

/// The directory of the authentication method called `name` of the device
/// kept in `root`.
pub open spec fn method_directory(root: Seq<u8>, name: Seq<u8>) -> Seq<u8> {
    join(authentication_directory(root), name)
}

/// The authentication method called `name` whose fields hold `values`.
pub open spec fn assemble_method(name: Seq<u8>, values: Seq<ValueView>) -> AuthenticationView {
    AuthenticationView {
        name,
        is_enabled: enabled_of(values[0]->Ok_0),
        min_password_length: number_of(Format::Unsigned, values[1]->Ok_0) as u64,
        max_password_length: number_of(Format::Unsigned, values[2]->Ok_0) as u64,
        role: role_of(values[3]->Ok_0),
    }
}

/// Where the reading of one authentication method stands.
pub enum AuthenticationProbeView {
    /// `values` have been read and all are usable; one more file is wanted.
    Read { root: Seq<u8>, name: Seq<u8>, values: Seq<ValueView> },
    /// The entry is decided.
    Done(AuthenticationEntryView),
}

/// Where the reading of an authentication method stands once `values` have
/// been read, the last of them just now and the ones before it all usable.
pub open spec fn authentication_step(root: Seq<u8>, name: Seq<u8>, values: Seq<ValueView>)
    -> AuthenticationProbeView {
    let fields = authentication_fields();
    let last = values.len() - 1;
    let directory = method_directory(root, name);
    if 0 <= last < fields.len() && field_error(fields[last], directory, values[last]) is Some {
        AuthenticationProbeView::Done(
            AuthenticationEntryView::Skipped(
                SkipReasonView::Field(field_error(fields[last], directory, values[last])->Some_0),
            ),
        )
    } else if values.len() < fields.len() {
        AuthenticationProbeView::Read { root, name, values }
    } else {
        AuthenticationProbeView::Done(AuthenticationEntryView::Found(assemble_method(name, values)))
    }
}

/// How the reading of the directory entry `entry` begins.
pub open spec fn authentication_start(
    root: Seq<u8>,
    entry: Result<(Seq<u8>, Result<bool, IoFailure>), IoFailure>,
) -> AuthenticationProbeView {
    match entry {
        Err(failure) => AuthenticationProbeView::Done(
            AuthenticationEntryView::Skipped(SkipReasonView::Entry(failure)),
        ),
        Ok((name, Err(failure))) => AuthenticationProbeView::Done(
            AuthenticationEntryView::Skipped(SkipReasonView::Kind(failure)),
        ),
        Ok((name, Ok(false))) => AuthenticationProbeView::Done(AuthenticationEntryView::Ignored),
        Ok((name, Ok(true))) => authentication_step(root, name, Seq::empty()),
    }
}

/// The reading of one authentication method in progress: some of its files
/// have been read, all of them usable, and one more is wanted.
#[derive(Debug, PartialEq, Eq)]
pub struct AuthenticationReader {
    root: Vec<u8>,
    name: Vec<u8>,
    directory: Vec<u8>,
    values: Vec<Value>,
}

/// Where the reading of one authentication method stands.
#[derive(Debug, PartialEq, Eq)]
pub enum AuthenticationProbe {
    /// The file at `path()` of the reader is to be read and its outcome
    /// handed to `supply`.
    Read(AuthenticationReader),
    /// The entry is decided.
    Done(AuthenticationEntry),
}

/// The field at position `index` of an authentication method.
fn method_field(index: usize) -> (r: Option<Field>)
    ensures
        r == if index < authentication_fields().len() {
            Some(authentication_fields()[index as int])
        } else {
            None
        },
{
    if index == 0 {
        Some(Field::IsEnabled)
    } else if index == 1 {
        Some(Field::MinPasswordLength)
    } else if index == 2 {
        Some(Field::MaxPasswordLength)
    } else if index == 3 {
        Some(Field::Role)
    } else {
        None
    }
}

impl AuthenticationReader {
    #[verifier::type_invariant]
    spec fn valid(&self) -> bool {
        let values = values_view(self.values@);
        &&& self.directory@ == method_directory(self.root@, self.name@)
        &&& values.len() < authentication_fields().len()
        &&& forall|i: int|
            0 <= i < values.len() ==> field_error(
                #[trigger] authentication_fields()[i],
                self.directory@,
                values[i],
            ) is None
    }

    /// The directory of the device that is being read.
    pub closed spec fn root(&self) -> Seq<u8> {
        self.root@
    }

    /// The name of the method that is being read.
    pub closed spec fn name(&self) -> Seq<u8> {
        self.name@
    }

    /// The values that have been read so far, in the order in which they
    /// were asked for.
    pub closed spec fn values(&self) -> Seq<ValueView> {
        values_view(self.values@)
    }

    /// The field that is wanted next.
    pub open spec fn awaited(&self) -> Field {
        authentication_fields()[self.values().len() as int]
    }

    /// The file that is wanted next.
    pub open spec fn awaited_path(&self) -> Seq<u8> {
        self.awaited().path_in(method_directory(self.root(), self.name()))
    }

    /// Begins the reading of the directory entry `entry` of the
    /// authentication directory of `device`.
    pub fn begin(device: &Device, entry: Result<DirectoryEntry, IoFailure>) -> (r:
        AuthenticationProbe)
        ensures
            r@ == authentication_start(device.root(), entry_view(entry)),
    {
        match entry {
            Err(failure) => AuthenticationProbe::Done(
                AuthenticationEntry::Skipped(SkipReason::Entry(failure)),
            ),
            Ok(DirectoryEntry { name, is_dir: Err(failure) }) => AuthenticationProbe::Done(
                AuthenticationEntry::Skipped(SkipReason::Kind(failure)),
            ),
            Ok(DirectoryEntry { name, is_dir: Ok(false) }) => AuthenticationProbe::Done(
                AuthenticationEntry::Ignored,
            ),
            Ok(DirectoryEntry { name, is_dir: Ok(true) }) => {
                let methods = device.authentication_path();
                let directory = join_path(methods.as_slice(), name.as_slice());
                let values: Vec<Value> = Vec::new();
                proof {
                    assert(values_view(values@) == Seq::<ValueView>::empty());
                }
                AuthenticationProbe::Read(
                    AuthenticationReader {
                        root: copy_bytes(device.path()),
                        name,
                        directory,
                        values,
                    },
                )
            },
        }
    }

    /// The field that is wanted next.
    pub fn field(&self) -> (r: Field)
        ensures
            r == self.awaited(),
    {
        proof {
            use_type_invariant(self);
        }
        match method_field(self.values.len()) {
            Some(field) => field,
            None => vstd::pervasive::unreached(),
        }
    }

    /// The file that is wanted next.
    pub fn path(&self) -> (r: Vec<u8>)
        ensures
            r@ == self.awaited_path(),
    {
        proof {
            use_type_invariant(self);
        }
        self.field().file_path(self.directory.as_slice())
    }

    /// Takes the outcome `raw` of reading the wanted file and says how the
    /// reading goes on.
    pub fn supply(self, raw: RawRead) -> (r: AuthenticationProbe)
        ensures
            r@ == authentication_step(
                self.root(),
                self.name(),
                self.values().push(value_of(self.awaited_path(), raw_view(raw))),
            ),
    {
        proof {
            use_type_invariant(&self);
        }
        let field = self.field();
        let AuthenticationReader { root, name, directory, mut values } = self;
        let ghost before = values_view(values@);
        let value = read_value(directory.as_slice(), field.file_name(), raw);
        let ghost read = value_view(value);
        let failed = check_field(field, directory.as_slice(), &value);
        values.push(value);
        proof {
            assert(values_view(values@) == before.push(read));
        }
        match failed {
            Some(error) => AuthenticationProbe::Done(
                AuthenticationEntry::Skipped(SkipReason::Field(error)),
            ),
            None => {
                if values.len() < 4 {
                    AuthenticationProbe::Read(
                        AuthenticationReader { root, name, directory, values },
                    )
                } else {
                    let ghost all = values_view(values@);
                    assert(authentication_fields()[0] == Field::IsEnabled);
                    assert(authentication_fields()[1] == Field::MinPasswordLength);
                    assert(authentication_fields()[2] == Field::MaxPasswordLength);
                    assert(authentication_fields()[3] == Field::Role);
                    let is_enabled = !same_text(text_of(&values[0]), "0");
                    let min_password_length = unsigned_number(text_of(&values[1]));
                    let max_password_length = unsigned_number(text_of(&values[2]));
                    let role = AuthenticationRole::from_text(text_of(&values[3]));
                    AuthenticationProbe::Done(
                        AuthenticationEntry::Found(
                            Authentication {
                                name,
                                is_enabled,
                                min_password_length,
                                max_password_length,
                                role,
                            },
                        ),
                    )
                }
            },
        }
    }
}

impl View for AuthenticationProbe {
    type V = AuthenticationProbeView;

    open spec fn view(&self) -> AuthenticationProbeView {
        match self {
            AuthenticationProbe::Read(reader) => AuthenticationProbeView::Read {
                root: reader.root(),
                name: reader.name(),
                values: reader.values(),
            },
            AuthenticationProbe::Done(entry) => AuthenticationProbeView::Done(entry@),
        }
    }
}

} // verus!
