//! Catalog entities fetched from the external object-store client: buckets,
//! listed objects, object metadata and object versions. They are read-only
//! payloads; the controller replaces them wholesale on a successful load and
//! never mutates them in place.
//!
//! Timestamps are carried as plain calendar fields, so that everything the
//! controller and the formatting layer read from a date is an ordinary
//! integer; the conversion from the store client's own time representation
//! happens outside the library.

use vstd::prelude::*;

verus! {

/// A calendar timestamp broken into plain fields.
#[derive(Clone, Copy, Debug, PartialEq, Eq, Structural)]
pub struct DateTimeValue {
    pub year: u16,
    pub month: u8,
    pub day: u8,
    pub hour: u8,
    pub minute: u8,
    pub second: u8,
}

/// A plausible calendar timestamp: what a store client can ever hand over,
/// and what gives the formatted form its fixed width.
pub open spec fn datetime_wf(d: DateTimeValue) -> bool {
    &&& d.year <= 9999
    &&& 1 <= d.month <= 12
    &&& 1 <= d.day <= 31
    &&& d.hour <= 23
    &&& d.minute <= 59
    &&& d.second <= 59
}

/// One bucket of the store.
#[derive(Debug, Clone, PartialEq, Eq)]
pub struct BucketItem {
    pub name: String,
}

impl View for BucketItem {
    type V = Seq<char>;

    open spec fn view(&self) -> Seq<char> {
        self.name@
    }
}

/// One entry of an object listing: a common prefix (directory) or an object
/// (file) with its size and modification time.
#[derive(Debug, Clone, PartialEq, Eq)]
pub enum ObjectItem {
    Dir { name: String },
    File { name: String, size_byte: i64, last_modified: DateTimeValue },
}

/// Mathematical image of an `ObjectItem`.
#[verifier::ext_equal]
pub enum ObjectItemView {
    Dir { name: Seq<char> },
    File { name: Seq<char>, size_byte: int, last_modified: DateTimeValue },
}

impl View for ObjectItem {
    type V = ObjectItemView;

    open spec fn view(&self) -> ObjectItemView {
        match self {
            ObjectItem::Dir { name } => ObjectItemView::Dir { name: name@ },
            ObjectItem::File { name, size_byte, last_modified } => ObjectItemView::File {
                name: name@,
                size_byte: *size_byte as int,
                last_modified: *last_modified,
            },
        }
    }
}

/// Metadata of one object, shown on the detail screen.
#[derive(Debug, Clone, PartialEq, Eq)]
pub struct FileDetail {
    pub name: String,
    pub size_byte: i64,
    pub last_modified: DateTimeValue,
    pub e_tag: String,
    pub content_type: String,
}

/// Mathematical image of a `FileDetail`.
#[verifier::ext_equal]
pub struct FileDetailView {
    pub name: Seq<char>,
    pub size_byte: int,
    pub last_modified: DateTimeValue,
    pub e_tag: Seq<char>,
    pub content_type: Seq<char>,
}

impl View for FileDetail {
    type V = FileDetailView;

    open spec fn view(&self) -> FileDetailView {
        FileDetailView {
            name: self.name@,
            size_byte: self.size_byte as int,
            last_modified: self.last_modified,
            e_tag: self.e_tag@,
            content_type: self.content_type@,
        }
    }
}

/// One stored version of an object.
#[derive(Debug, Clone, PartialEq, Eq)]
pub struct FileVersion {
    pub version_id: String,
    pub size_byte: i64,
    pub last_modified: DateTimeValue,
}

/// Mathematical image of a `FileVersion`.
#[verifier::ext_equal]
pub struct FileVersionView {
    pub version_id: Seq<char>,
    pub size_byte: int,
    pub last_modified: DateTimeValue,
}

impl View for FileVersion {
    type V = FileVersionView;

    open spec fn view(&self) -> FileVersionView {
        FileVersionView {
            version_id: self.version_id@,
            size_byte: self.size_byte as int,
            last_modified: self.last_modified,
        }
    }
}

/// Full key of one object: the bucket and the path segments under it.
#[derive(Debug, Clone, PartialEq, Eq)]
pub struct ObjectKey {
    pub bucket_name: String,
    pub object_path: Vec<String>,
}

/// Mathematical image of an `ObjectKey`.
#[verifier::ext_equal]
pub struct ObjectKeyView {
    pub bucket_name: Seq<char>,
    pub object_path: Seq<Seq<char>>,
}

impl View for ObjectKey {
    type V = ObjectKeyView;

    open spec fn view(&self) -> ObjectKeyView {
        ObjectKeyView { bucket_name: self.bucket_name@, object_path: self.object_path.deep_view() }
    }
}

/// Raw bytes of a fetched object.
#[derive(Debug, Clone, PartialEq, Eq)]
pub struct RawObject {
    pub bytes: Vec<u8>,
}

impl View for RawObject {
    type V = Seq<u8>;

    open spec fn view(&self) -> Seq<u8> {
        self.bytes@
    }
}

} // verus!
