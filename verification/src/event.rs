//! Events consumed by the controller, one at a time, in arrival order.
//!
//! Two producer kinds feed the channel that delivers these: a long-lived
//! input reader translating terminal input into `Key` and `Resize` events,
//! and one short-lived worker per dispatched operation, which performs
//! exactly one blocking call and sends exactly one completion event. The
//! channel itself is plumbing and lives outside the library; the event
//! vocabulary and the completion payloads are defined here.

use vstd::prelude::*;

use crate::error::AppError;
use crate::item::{BucketItem, FileDetail, FileVersion, ObjectItem, ObjectKey, RawObject};

verus! {

/// A key press. Keys that share a binding with a control chord (Enter and
/// control-m, Backspace and control-h) arrive as one value.
#[derive(Clone, Copy, Debug, PartialEq, Eq, Structural)]
pub enum KeyInput {
    Esc,
    CtrlC,
    Enter,
    Backspace,
    Char(char),
}

/// Payload of a finished bucket-catalog fetch.
#[derive(Debug)]
pub struct CompleteInitializeResult {
    pub buckets: Vec<BucketItem>,
}

impl CompleteInitializeResult {
    /// Pair the fetched catalog with the success or failure of the call.
    pub fn new(buckets: Result<Vec<BucketItem>, AppError>) -> (r: Result<
        CompleteInitializeResult,
        AppError,
    >)
        ensures
            buckets matches Ok(b) ==> (r matches Ok(c) && c.buckets == b),
            buckets matches Err(e) ==> (r matches Err(e2) && e2 == e),
    {
        match buckets {
            Ok(b) => Ok(CompleteInitializeResult { buckets: b }),
            Err(e) => Err(e),
        }
    }
}

/// Payload of a finished object listing.
#[derive(Debug)]
pub struct CompleteLoadObjectsResult {
    pub items: Vec<ObjectItem>,
}

impl CompleteLoadObjectsResult {
    /// Pair the fetched listing with the success or failure of the call.
    pub fn new(items: Result<Vec<ObjectItem>, AppError>) -> (r: Result<
        CompleteLoadObjectsResult,
        AppError,
    >)
        ensures
            items matches Ok(v) ==> (r matches Ok(c) && c.items == v),
            items matches Err(e) ==> (r matches Err(e2) && e2 == e),
    {
        match items {
            Ok(v) => Ok(CompleteLoadObjectsResult { items: v }),
            Err(e) => Err(e),
        }
    }
}

/// Payload of a finished metadata fetch. The detail is boxed to keep the
/// event enum small across its variants.
#[derive(Debug)]
pub struct CompleteLoadObjectDetailResult {
    pub detail: Box<FileDetail>,
    pub map_key: ObjectKey,
}

impl CompleteLoadObjectDetailResult {
    /// Pair the fetched metadata and its object key with the success or
    /// failure of the call.
    pub fn new(detail: Result<FileDetail, AppError>, map_key: ObjectKey) -> (r: Result<
        CompleteLoadObjectDetailResult,
        AppError,
    >)
        ensures
            detail matches Ok(d) ==> (r matches Ok(c) && c.detail@ == d@ && c.map_key == map_key),
            detail matches Err(e) ==> (r matches Err(e2) && e2 == e),
    {
        match detail {
            Ok(d) => Ok(CompleteLoadObjectDetailResult { detail: Box::new(d), map_key }),
            Err(e) => Err(e),
        }
    }
}

/// Payload of a finished download: the fetched bytes and the destination the
/// worker wrote them to.
#[derive(Debug)]
pub struct CompleteDownloadObjectResult {
    pub obj: RawObject,
    pub path: String,
}

impl CompleteDownloadObjectResult {
    /// Pair the downloaded bytes and their destination with the success or
    /// failure of the call.
    pub fn new(obj: Result<RawObject, AppError>, path: String) -> (r: Result<
        CompleteDownloadObjectResult,
        AppError,
    >)
        ensures
            obj matches Ok(o) ==> (r matches Ok(c) && c.obj == o && c.path == path),
            obj matches Err(e) ==> (r matches Err(e2) && e2 == e),
    {
        match obj {
            Ok(o) => Ok(CompleteDownloadObjectResult { obj: o, path }),
            Err(e) => Err(e),
        }
    }
}

/// Payload of a finished preview fetch: the bytes, the metadata they belong
/// to, and the temporary location they were stored at.
#[derive(Debug)]
pub struct CompletePreviewObjectResult {
    pub obj: RawObject,
    pub file_detail: FileDetail,
    pub file_version_id: Option<String>,
    pub path: String,
}

impl CompletePreviewObjectResult {
    /// Pair the fetched bytes with their metadata, version and location, and
    /// with the success or failure of the call.
    pub fn new(
        obj: Result<RawObject, AppError>,
        file_detail: FileDetail,
        file_version_id: Option<String>,
        path: String,
    ) -> (r: Result<CompletePreviewObjectResult, AppError>)
        ensures
            obj matches Ok(o) ==> (r matches Ok(c) && c.obj == o && c.file_detail == file_detail
                && c.file_version_id == file_version_id && c.path == path),
            obj matches Err(e) ==> (r matches Err(e2) && e2 == e),
    {
        match obj {
            Ok(o) => Ok(CompletePreviewObjectResult { obj: o, file_detail, file_version_id, path }),
            Err(e) => Err(e),
        }
    }
}

/// The event taxonomy: key presses and resizes from the input reader, one
/// completion event per dispatched operation, and notification events.
#[derive(Debug)]
pub enum AppEventType {
    Key(KeyInput),
    Resize(usize, usize),
    CompleteInitialize(Result<CompleteInitializeResult, AppError>),
    CompleteLoadObjects(Result<CompleteLoadObjectsResult, AppError>),
    CompleteLoadObjectDetail(Result<CompleteLoadObjectDetailResult, AppError>),
    CompleteLoadObjectVersions(Result<Vec<FileVersion>, AppError>),
    CompleteDownloadObject(Result<CompleteDownloadObjectResult, AppError>),
    CompletePreviewObject(Result<CompletePreviewObjectResult, AppError>),
    NotifyInfo(String),
    NotifyError(AppError),
}

} // verus!
