//! The calls the host makes: each takes raw handles, decodes them, screens
//! the paths and dispatches, and answers with a status code or a buffer
//! handle. Errors are found in that order and stop the call where found.
use vstd::prelude::*;
use crate::buffers::{BufferTable, NULL_HANDLE};
use crate::dispatch::{
    dispatch, dispatch_read, reaches_store, status_code, store_buffer, store_status, to_status_code, FileOperationRequest, FileStore,
    OperationResult, StoreCall, STATUS_FAILED, STATUS_OK,
};
use crate::marshal::{decodes, handle_text, marshal, GatewayError};
use crate::path::{path_accepted, validate_path};

verus! {

/// The handle `h` decodes to a path that the path rules accept.
pub open spec fn handle_path_ok(h: Seq<u8>) -> bool {
    decodes(h) && path_accepted(handle_text(h))
}

/// Screens the path behind a handle: 0 when it decodes and is accepted,
/// -1 otherwise. Nothing else is touched.
pub fn rust_validate_path(path: &[u8]) -> (r: i32)
    ensures
        r == (if handle_path_ok(path@) {
            STATUS_OK
        } else {
            STATUS_FAILED
        }),
{
    match marshal(path) {
        Ok(p) => if validate_path(p.as_str()).is_accept() {
            STATUS_OK
        } else {
            STATUS_FAILED
        },
        Err(_) => STATUS_FAILED,
    }
}

/// The status code for a store that reported `done`.
pub open spec fn code_of(done: bool) -> i32 {
    if done {
        STATUS_OK
    } else {
        STATUS_FAILED
    }
}

/// The code of a store's report is the code for that report.
proof fn lemma_code_of_status(done: bool)
    ensures
        status_code(store_status(done)) == code_of(done),
{
}

/// Creates the file named by `filename` in `store`. An accepted path is
/// handed to the store's `create` exactly once and the answer follows its
/// report; a handle that does not decode to an accepted path gives -1 and
/// the store is not called.
pub fn rust_create_file<S: FileStore>(store: &mut S, filename: &[u8]) -> (r: i32)
    ensures
        handle_path_ok(filename@) ==> exists|done: bool|
            r == code_of(done) && final(store).log() == old(store).log().push(
                StoreCall::Create(handle_text(filename@), done),
            ),
        !handle_path_ok(filename@) ==> r == STATUS_FAILED && *final(store) == *old(store),
{
    match marshal(filename) {
        Ok(path) => {
            let req = FileOperationRequest::Create { path };
            let result = dispatch(store, &req);
            proof {
                if reaches_store(req) {
                    let done = choose|done: bool|
                        result == store_status(done) && store.log() == old(store).log().push(
                            StoreCall::Create(req->Create_path@, done),
                        );
                    lemma_code_of_status(done);
                }
            }
            to_status_code(&result)
        },
        Err(_) => STATUS_FAILED,
    }
}

/// Writes the text behind `content` to the file named by `filename`. The
/// name is decoded first and the content only if the name decoded; when
/// both decode and the path is accepted, the store's `write` gets the two
/// texts unchanged, exactly once, and the answer follows its report.
/// Otherwise the answer is -1 and the store is not called.
pub fn rust_write_file<S: FileStore>(store: &mut S, filename: &[u8], content: &[u8]) -> (r: i32)
    ensures
        handle_path_ok(filename@) && decodes(content@) ==> exists|done: bool|
            r == code_of(done) && final(store).log() == old(store).log().push(
                StoreCall::Write(handle_text(filename@), handle_text(content@), done),
            ),
        !(handle_path_ok(filename@) && decodes(content@)) ==> r == STATUS_FAILED && *final(store)
            == *old(store),
{
    let path = match marshal(filename) {
        Ok(path) => path,
        Err(_) => return STATUS_FAILED,
    };
    let content = match marshal(content) {
        Ok(content) => content,
        Err(_) => return STATUS_FAILED,
    };
    let req = FileOperationRequest::Write { path, content };
    let result = dispatch(store, &req);
    proof {
        if reaches_store(req) {
            let done = choose|done: bool|
                result == store_status(done) && store.log() == old(store).log().push(
                    StoreCall::Write(req->Write_path@, req->Write_content@, done),
                );
            lemma_code_of_status(done);
        }
    }
    to_status_code(&result)
}

/// Copies the file named by `src` to the one named by `dest`. The source
/// is decoded first and the destination only if the source decoded; when
/// both are accepted paths, the store's `copy` gets them exactly once, in
/// that order, and the answer follows its report. Otherwise the answer is
/// -1 and the store is not called.
pub fn rust_safe_copy<S: FileStore>(store: &mut S, src: &[u8], dest: &[u8]) -> (r: i32)
    ensures
        handle_path_ok(src@) && handle_path_ok(dest@) ==> exists|done: bool|
            r == code_of(done) && final(store).log() == old(store).log().push(
                StoreCall::Copy(handle_text(src@), handle_text(dest@), done),
            ),
        !(handle_path_ok(src@) && handle_path_ok(dest@)) ==> r == STATUS_FAILED && *final(store)
            == *old(store),
{
    let source = match marshal(src) {
        Ok(source) => source,
        Err(_) => return STATUS_FAILED,
    };
    let destination = match marshal(dest) {
        Ok(destination) => destination,
        Err(_) => return STATUS_FAILED,
    };
    let req = FileOperationRequest::Copy { src: source, dest: destination };
    let result = dispatch(store, &req);
    proof {
        if reaches_store(req) {
            let done = choose|done: bool|
                result == store_status(done) && store.log() == old(store).log().push(
                    StoreCall::Copy(req->Copy_src@, req->Copy_dest@, done),
                );
            lemma_code_of_status(done);
        }
    }
    to_status_code(&result)
}

/// Hands the outcome of a read to the host: the bytes of a successful read
/// are issued under a new handle, anything else is the null handle and
/// issues nothing.
pub fn hand_out(buffers: &mut BufferTable, result: OperationResult) -> (h: usize)
    requires
        old(buffers)@.len() < usize::MAX,
    ensures
        match result {
            OperationResult::Buffer(Ok(v)) => h == old(buffers)@.len() + 1 && final(buffers)@
                == old(buffers)@.push(Some(v@)),
            _ => h == NULL_HANDLE && final(buffers)@ == old(buffers)@,
        },
{
    match result {
        OperationResult::Buffer(Ok(v)) => buffers.issue(v),
        _ => NULL_HANDLE,
    }
}

/// Reads the file named by `filename` and issues its bytes in `buffers`.
/// When the handle decodes to an accepted path and the store holds bytes
/// there, exactly those bytes are issued under a new handle, which the
/// host must release exactly once. Otherwise the answer is the null handle
/// and nothing is issued.
pub fn rust_read_file<S: FileStore>(store: &S, buffers: &mut BufferTable, filename: &[u8]) -> (h:
    usize)
    requires
        old(buffers)@.len() < usize::MAX,
    ensures
        ({
            let found = if handle_path_ok(filename@) {
                store.contents(handle_text(filename@))
            } else {
                None
            };
            match found {
                Some(b) => h == old(buffers)@.len() + 1 && final(buffers)@ == old(buffers)@.push(
                    Some(b),
                ),
                None => h == NULL_HANDLE && final(buffers)@ == old(buffers)@,
            }
        }),
{
    match marshal(filename) {
        Ok(path) => {
            let result = dispatch_read(store, &path);
            hand_out(buffers, result)
        },
        Err(_) => NULL_HANDLE,
    }
}

/// When the store reports a file absent, the read hands out the null
/// handle and issues no buffer.
pub proof fn lemma_absent_file_reads_null()
    ensures
        !(store_buffer(None) matches OperationResult::Buffer(Ok(_))),
        store_buffer(None) == OperationResult::Buffer(
            Err::<Vec<u8>, GatewayError>(GatewayError::BackendFailure),
        ),
{
}

} // verus!
