use vstd::prelude::*;
use vstd::string::StringExecFns;

use crate::errors::Error;
use crate::text::{dec_value, is_dec_string, join_path, joined, parse_u64, str_eq};

verus! {

/// Whether a remote entry is a file or a directory. The remote store marks
/// directories with a provider-specific media-type marker; the distinction is
/// digested into this kind once, when an object is first observed.
#[derive(Clone, Copy, PartialEq, Eq, Structural, Debug)]
pub enum ObjectKind {
    File,
    Directory,
}

/// The mathematical image of a [`RemoteObject`].
pub struct ObjView {
    pub id: Seq<char>,
    pub name: Seq<char>,
    pub kind: ObjectKind,
    pub size: u64,
    pub extension: Seq<char>,
    pub modified: Seq<char>,
}

/// An entry of the remote store as this core keeps it: an opaque, stable,
/// server-assigned id, a display name, the digested kind, the size in bytes
/// (zero for directories and for files the store reports none for), the bare
/// extension and the raw last-modified timestamp.
///
/// A value of this type is only ever created from a listing, a search or the
/// result of an upload or create call — except the synthetic root object.
pub struct RemoteObject {
    pub id: String,
    pub name: String,
    pub kind: ObjectKind,
    pub size: u64,
    pub extension: String,
    pub modified: String,
}

impl View for RemoteObject {
    type V = ObjView;

    open spec fn view(&self) -> ObjView {
        ObjView {
            id: self.id@,
            name: self.name@,
            kind: self.kind,
            size: self.size,
            extension: self.extension@,
            modified: self.modified@,
        }
    }
}

impl RemoteObject {
    /// Whether the digested kind is the provider's folder marker.
    pub fn is_dir(&self) -> (r: bool)
        ensures
            r == (self@.kind is Directory),
    {
        self.kind == ObjectKind::Directory
    }

    /// An owned copy, equal to the original.
    pub fn duplicate(&self) -> (r: RemoteObject)
        ensures
            r == *self,
    {
        RemoteObject {
            id: self.id.clone(),
            name: self.name.clone(),
            kind: self.kind,
            size: self.size,
            extension: self.extension.clone(),
            modified: self.modified.clone(),
        }
    }
}

/// The wire shape of a remote entry, exactly as the remote store answers a
/// listing or search: every field optional. The driver hands these in; the
/// core digests them.
#[derive(Clone)]
pub struct RawObject {
    pub id: Option<String>,
    pub name: Option<String>,
    pub mime_type: Option<String>,
    pub size: Option<String>,
    pub extension: Option<String>,
    pub modified_time: Option<String>,
}

/// The provider's marker for directory-kind objects.
pub open spec fn folder_mime() -> Seq<char> {
    "application/vnd.google-apps.folder"@
}

/// The folder marker as an owned string, for create calls.
pub fn folder_mime_type() -> (r: String)
    ensures
        r@ == folder_mime(),
{
    "application/vnd.google-apps.folder".to_owned()
}

/// Whether an optional size field is absent or a readable number of bytes.
pub open spec fn size_field_ok(sz: Option<String>) -> bool {
    match sz {
        Some(t) => is_dec_string(t@) && dec_value(t@) <= u64::MAX,
        None => true,
    }
}

/// The size in bytes that an optional size field denotes.
pub open spec fn spec_size_of(sz: Option<String>) -> u64 {
    match sz {
        Some(t) => dec_value(t@) as u64,
        None => 0,
    }
}

/// Whether a wire object can be digested: id, name and kind marker present,
/// size readable when given.
pub open spec fn digest_ok(raw: RawObject) -> bool {
    &&& raw.id is Some
    &&& raw.name is Some
    &&& raw.mime_type is Some
    &&& size_field_ok(raw.size)
}

/// The digested image of a wire object.
pub open spec fn digest_view(raw: RawObject) -> ObjView {
    ObjView {
        id: raw.id.unwrap()@,
        name: raw.name.unwrap()@,
        kind: if raw.mime_type.unwrap()@ == folder_mime() {
            ObjectKind::Directory
        } else {
            ObjectKind::File
        },
        size: spec_size_of(raw.size),
        extension: match raw.extension {
            Some(e) => e@,
            None => Seq::empty(),
        },
        modified: match raw.modified_time {
            Some(m) => m@,
            None => Seq::empty(),
        },
    }
}

/// Digests a wire object, or says what made it unreadable.
pub fn digest(raw: &RawObject) -> (r: Result<RemoteObject, Error>)
    ensures
        r is Ok <==> digest_ok(*raw),
        r matches Ok(o) ==> o@ == digest_view(*raw),
        r matches Err(e) ==> e is RemoteCall,
{
    let id = match &raw.id {
        Some(x) => x.clone(),
        None => {
            return Err(Error::RemoteCall("remote object without an id".to_owned()));
        },
    };
    let name = match &raw.name {
        Some(x) => x.clone(),
        None => {
            return Err(Error::RemoteCall("remote object without a name".to_owned()));
        },
    };
    let mime = match &raw.mime_type {
        Some(x) => x.clone(),
        None => {
            return Err(Error::RemoteCall("remote object without a kind marker".to_owned()));
        },
    };
    let kind = if str_eq(mime.as_str(), "application/vnd.google-apps.folder") {
        ObjectKind::Directory
    } else {
        ObjectKind::File
    };
    let size = match &raw.size {
        Some(t) => match parse_u64(t.as_str()) {
            Some(v) => v,
            None => {
                return Err(Error::RemoteCall("remote object with an unreadable size".to_owned()));
            },
        },
        None => 0,
    };
    let extension = match &raw.extension {
        Some(e) => e.clone(),
        None => String::new(),
    };
    let modified = match &raw.modified_time {
        Some(m) => m.clone(),
        None => String::new(),
    };
    Ok(RemoteObject { id, name, kind, size, extension, modified })
}

/// What a listing or search hands back for each child: a read-only
/// projection of a remote object and its resolved path. Produced fresh on
/// every listing, never cached.
pub struct DirectoryEntry {
    pub name: String,
    pub path: String,
    pub is_dir: bool,
    pub size: u64,
    pub extension: String,
    pub last_modified: String,
}

/// The mathematical image of a [`DirectoryEntry`].
pub struct EntryView {
    pub name: Seq<char>,
    pub path: Seq<char>,
    pub is_dir: bool,
    pub size: u64,
    pub extension: Seq<char>,
    pub last_modified: Seq<char>,
}

impl View for DirectoryEntry {
    type V = EntryView;

    open spec fn view(&self) -> EntryView {
        EntryView {
            name: self.name@,
            path: self.path@,
            is_dir: self.is_dir,
            size: self.size,
            extension: self.extension@,
            last_modified: self.last_modified@,
        }
    }
}

impl DeepView for DirectoryEntry {
    type V = EntryView;

    open spec fn deep_view(&self) -> EntryView {
        self.view()
    }
}

/// What `DateTime::format` writes for a parsed timestamp: a function of the
/// timestamp's characters alone.
pub uninterp spec fn display_time_of(ts: Seq<char>) -> Seq<char>;

/// Whether a timestamp parses and so can be displayed: a function of its
/// characters alone as well.
pub uninterp spec fn time_displays(ts: Seq<char>) -> bool;

/// Relies on chrono: `str::parse::<DateTime<Utc>>` (an RFC 3339 reader) and
/// `DateTime::format` with the fixed pattern `%Y-%m-%d %H:%M:%S`. Both depend
/// on the characters of the input alone — the zone is fixed to UTC and the
/// pattern is locale-free — so whether the text parses is named by
/// [`time_displays`], and what is written for it by [`display_time_of`].
/// Formatting a parsed value with this pattern cannot itself fail: the
/// pattern has only numeric fields, all present on a `DateTime`.
#[verifier::external_body]
pub fn format_timestamp(ts: &str) -> (r: Option<String>)
    ensures
        r is Some <==> time_displays(ts@),
        r matches Some(t) ==> t@ == display_time_of(ts@),
{
    match ts.parse::<chrono::DateTime<chrono::Utc>>() {
        Ok(t) => Some(t.format("%Y-%m-%d %H:%M:%S").to_string()),
        Err(_) => None,
    }
}

/// The listing projection of a digested object under `parent`: the full path
/// joined with a forward slash, the extension in leading-dot form, and the
/// timestamp in display form.
pub open spec fn entry_of(parent: Seq<char>, o: ObjView) -> EntryView {
    EntryView {
        name: o.name,
        path: joined(parent, o.name),
        is_dir: o.kind is Directory,
        size: o.size,
        extension: "."@ + o.extension,
        last_modified: display_time_of(o.modified),
    }
}

/// Builds the caller-facing record for one listed child, from the digested
/// object and the already-displayed timestamp.
pub fn make_entry(parent: &str, o: &RemoteObject, displayed_time: String) -> (e: DirectoryEntry)
    ensures
        e@ == (EntryView {
            name: o@.name,
            path: joined(parent@, o@.name),
            is_dir: o@.kind is Directory,
            size: o@.size,
            extension: "."@ + o@.extension,
            last_modified: displayed_time@,
        }),
{
    let mut ext: String = ".".to_owned();
    ext.append(o.extension.as_str());
    DirectoryEntry {
        name: o.name.clone(),
        path: join_path(parent, o.name.as_str()),
        is_dir: o.is_dir(),
        size: o.size,
        extension: ext,
        last_modified: displayed_time,
    }
}

} // verus!
