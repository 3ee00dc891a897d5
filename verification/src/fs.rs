//! Decoding of file contents.
use vstd::prelude::*;
use vstd::utf8::{decode_utf8, valid_utf8};

verus! {

#[verifier::external_type_specification]
#[verifier::external_body]
pub struct ExIoError(std::io::Error);

#[verifier::external_type_specification]
#[verifier::external_body]
pub struct ExFromUtf8Error(std::string::FromUtf8Error);

/// A file system error
#[derive(Debug)]
pub enum FSError {
    /// An IO error (for example a file doesn't exist)
    IO(std::io::Error),
    /// A unicode conversion error (failed to convert bytes into a string)
    Unicode(std::string::FromUtf8Error),
}

/// A file system result (either T, or a file system error)
pub type FSResult<T> = Result<T, FSError>;

/// The bytes that a UTF-8 decoding error gives back, as
/// `FromUtf8Error::as_bytes` returns them.
pub uninterp spec fn utf8_error_bytes(e: std::string::FromUtf8Error) -> Seq<u8>;

/// `String::from_utf8`: its documentation promises `Ok` exactly when the
/// bytes are valid UTF-8, and then a string whose characters are the ones the
/// bytes encode; otherwise an error that includes the vector moved in. Why
/// the bytes are invalid (where the error is) is not stated.
#[verifier::external_body]
fn string_from_utf8(bytes: Vec<u8>) -> (r: Result<String, std::string::FromUtf8Error>)
    ensures
        r is Ok <==> valid_utf8(bytes@),
        r matches Ok(s) ==> s@ == decode_utf8(bytes@),
        r matches Err(e) ==> utf8_error_bytes(e) == bytes@,
{
    String::from_utf8(bytes)
}

/// Turn the outcome of reading a file into its text.
///
/// A read that failed keeps its IO error; bytes that are not valid UTF-8
/// give a unicode error that holds those bytes; otherwise the result is the
/// decoded text.
pub fn read_string(read: FSResult<Vec<u8>>) -> (r: FSResult<String>)
    ensures
        read matches Err(FSError::IO(e)) ==> r matches Err(FSError::IO(e2)) && e2 == e,
        read matches Err(FSError::Unicode(e)) ==> r matches Err(FSError::Unicode(e2)) && e2 == e,
        read matches Ok(bytes) ==> {
            &&& (r is Ok <==> valid_utf8(bytes@))
            &&& (r is Err ==> (r matches Err(FSError::Unicode(e)) && utf8_error_bytes(e) == bytes@))
            &&& (r matches Ok(s) ==> s@ == decode_utf8(bytes@))
        },
{
    let bytes = match read {
        Ok(bytes) => bytes,
        Err(e) => return Err(e),
    };
    match string_from_utf8(bytes) {
        Ok(s) => Ok(s),
        Err(e) => Err(FSError::Unicode(e)),
    }
}

} // verus!
