//! Dispatch of checked requests to a file store.
//!
//! Every path of a request is screened before the store is reached; a
//! refused path ends the request with no call into the store at all.
use vstd::prelude::*;
use crate::marshal::GatewayError;
use crate::path::{path_accepted, validate_path};

verus! {

/// One effect asked of a store: the decoded arguments, in the order they
/// were handed over, and whether the store reported it done.
pub ghost enum StoreCall {
    Create(Seq<char>, bool),
    Write(Seq<char>, Seq<char>, bool),
    Copy(Seq<char>, Seq<char>, bool),
}

/// The effects asked of a store, oldest first.
pub type StoreLog = Seq<StoreCall>;

/// The characters of a path.
pub type PathText = Seq<char>;

/// The bytes of a file.
pub type FileBytes = Seq<u8>;

/// The storage collaborator that performs the effects. Its model is the
/// log of effects asked of it and the contents it would read back. Each
/// effect appends one entry to the log, with the store's report; a read
/// answers from the contents and changes nothing.
pub trait FileStore {
    /// The effects asked of this store so far, oldest first.
    spec fn log(&self) -> StoreLog;

    /// The bytes a read of `path` yields, or `None` when there are none.
    spec fn contents(&self, path: PathText) -> Option<FileBytes>;

    fn create(&mut self, path: &str) -> (r: bool)
        ensures
            final(self).log() == old(self).log().push(StoreCall::Create(path@, r)),
    ;

    fn read(&self, path: &str) -> (r: Option<Vec<u8>>)
        ensures
            r is Some <==> self.contents(path@) is Some,
            r matches Some(v) ==> self.contents(path@) == Some(v@),
    ;

    fn write(&mut self, path: &str, content: &str) -> (r: bool)
        ensures
            final(self).log() == old(self).log().push(StoreCall::Write(path@, content@, r)),
    ;

    fn copy(&mut self, src: &str, dest: &str) -> (r: bool)
        ensures
            final(self).log() == old(self).log().push(StoreCall::Copy(src@, dest@, r)),
    ;
}

/// A request whose strings have all been decoded.
#[derive(Debug)]
pub enum FileOperationRequest {
    Create { path: String },
    Read { path: String },
    Write { path: String, content: String },
    Copy { src: String, dest: String },
    ValidatePath { path: String },
}

/// The result of one request: a status for the operations that carry no
/// payload, the file's bytes or an error for a read.
#[derive(Debug)]
pub enum OperationResult {
    Status(Result<(), GatewayError>),
    Buffer(Result<Vec<u8>, GatewayError>),
}

/// Every path of `req` passes the path rules.
pub open spec fn paths_accepted(req: FileOperationRequest) -> bool {
    match req {
        FileOperationRequest::Create { path } => path_accepted(path@),
        FileOperationRequest::Read { path } => path_accepted(path@),
        FileOperationRequest::Write { path, .. } => path_accepted(path@),
        FileOperationRequest::Copy { src, dest } => path_accepted(src@) && path_accepted(dest@),
        FileOperationRequest::ValidatePath { path } => path_accepted(path@),
    }
}

/// `req` is handed to the store: it asks for an effect and its paths pass.
pub open spec fn reaches_store(req: FileOperationRequest) -> bool {
    !(req is ValidatePath) && paths_accepted(req)
}

/// The result of a request that never reaches the store.
pub open spec fn early_result(req: FileOperationRequest) -> OperationResult {
    match req {
        FileOperationRequest::ValidatePath { path } => if path_accepted(path@) {
            OperationResult::Status(Ok(()))
        } else {
            OperationResult::Status(Err(GatewayError::InvalidPath))
        },
        FileOperationRequest::Read { .. } => OperationResult::Buffer(Err(GatewayError::InvalidPath)),
        _ => OperationResult::Status(Err(GatewayError::InvalidPath)),
    }
}

/// The status that the store's report `done` becomes.
pub open spec fn store_status(done: bool) -> OperationResult {
    if done {
        OperationResult::Status(Ok(()))
    } else {
        OperationResult::Status(Err(GatewayError::BackendFailure))
    }
}

/// The result that the store's answer to a read becomes.
pub open spec fn store_buffer(content: Option<Vec<u8>>) -> OperationResult {
    match content {
        Some(v) => OperationResult::Buffer(Ok(v)),
        None => OperationResult::Buffer(Err(GatewayError::BackendFailure)),
    }
}

/// Turns the store's report on an effect into a status.
pub fn status_from_store(done: bool) -> (r: OperationResult)
    ensures
        r == store_status(done),
{
    if done {
        OperationResult::Status(Ok(()))
    } else {
        OperationResult::Status(Err(GatewayError::BackendFailure))
    }
}

/// Turns the store's answer to a read into a result: an absent file is an
/// error, never an empty buffer.
pub fn buffer_from_store(content: Option<Vec<u8>>) -> (r: OperationResult)
    ensures
        r == store_buffer(content),
{
    match content {
        Some(v) => OperationResult::Buffer(Ok(v)),
        None => OperationResult::Buffer(Err(GatewayError::BackendFailure)),
    }
}

/// The result that a read of `path` gets from a store whose contents are
/// `c`: the bytes stored there, or a store failure when there are none.
pub open spec fn read_outcome(r: OperationResult, c: Option<Seq<u8>>) -> bool {
    match c {
        Some(b) => r matches OperationResult::Buffer(Ok(v)) && v@ == b,
        None => r == OperationResult::Buffer(Err::<Vec<u8>, GatewayError>(GatewayError::BackendFailure)),
    }
}

/// Reads `path` from `store` once, after the path rules accept it.
pub fn dispatch_read<S: FileStore>(store: &S, path: &String) -> (r: OperationResult)
    ensures
        !path_accepted(path@) ==> r == OperationResult::Buffer(
            Err::<Vec<u8>, GatewayError>(GatewayError::InvalidPath),
        ),
        path_accepted(path@) ==> read_outcome(r, store.contents(path@)),
{
    if !validate_path(path.as_str()).is_accept() {
        return OperationResult::Buffer(Err(GatewayError::InvalidPath));
    }
    let content = store.read(path.as_str());
    buffer_from_store(content)
}

/// Runs one request. A request that does not reach the store gets its
/// result from the path rules alone and leaves the store as it was. One
/// that does asks the store exactly once, with the request's strings in
/// order, and its result is the store's answer.
pub fn dispatch<S: FileStore>(store: &mut S, req: &FileOperationRequest) -> (r: OperationResult)
    ensures
        !reaches_store(*req) ==> r == early_result(*req) && *final(store) == *old(store),
        reaches_store(*req) ==> match *req {
            FileOperationRequest::Create { path } => exists|done: bool|
                r == store_status(done) && final(store).log() == old(store).log().push(
                    StoreCall::Create(path@, done),
                ),
            FileOperationRequest::Write { path, content } => exists|done: bool|
                r == store_status(done) && final(store).log() == old(store).log().push(
                    StoreCall::Write(path@, content@, done),
                ),
            FileOperationRequest::Copy { src, dest } => exists|done: bool|
                r == store_status(done) && final(store).log() == old(store).log().push(
                    StoreCall::Copy(src@, dest@, done),
                ),
            FileOperationRequest::Read { path } => *final(store) == *old(store) && read_outcome(
                r,
                old(store).contents(path@),
            ),
            FileOperationRequest::ValidatePath { .. } => false,
        },
{
    match req {
        FileOperationRequest::Create { path } => {
            if !validate_path(path.as_str()).is_accept() {
                return OperationResult::Status(Err(GatewayError::InvalidPath));
            }
            let done = store.create(path.as_str());
            status_from_store(done)
        },
        FileOperationRequest::Read { path } => dispatch_read(store, path),
        FileOperationRequest::Write { path, content } => {
            if !validate_path(path.as_str()).is_accept() {
                return OperationResult::Status(Err(GatewayError::InvalidPath));
            }
            let done = store.write(path.as_str(), content.as_str());
            status_from_store(done)
        },
        FileOperationRequest::Copy { src, dest } => {
            if !validate_path(src.as_str()).is_accept() || !validate_path(
                dest.as_str(),
            ).is_accept() {
                return OperationResult::Status(Err(GatewayError::InvalidPath));
            }
            let done = store.copy(src.as_str(), dest.as_str());
            status_from_store(done)
        },
        FileOperationRequest::ValidatePath { path } => {
            if validate_path(path.as_str()).is_accept() {
                OperationResult::Status(Ok(()))
            } else {
                OperationResult::Status(Err(GatewayError::InvalidPath))
            }
        },
    }
}

/// The boundary's code for success or a valid path.
pub const STATUS_OK: i32 = 0;

/// The boundary's code for any failure.
pub const STATUS_FAILED: i32 = -1;

/// The boundary's status code for a result: 0 for success, -1 for any
/// failure. A buffer result carries no status and reads as -1.
pub open spec fn status_code(r: OperationResult) -> i32 {
    match r {
        OperationResult::Status(Ok(())) => STATUS_OK,
        _ => STATUS_FAILED,
    }
}

/// Collapses a result to the boundary's status code.
pub fn to_status_code(r: &OperationResult) -> (c: i32)
    ensures
        c == status_code(*r),
{
    match r {
        OperationResult::Status(Ok(())) => STATUS_OK,
        _ => STATUS_FAILED,
    }
}

} // verus!
