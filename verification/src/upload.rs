//! What an upload form must hold before its file is sealed.
//!
//! The form arrives in pieces: chunks of the file, and the password. The
//! caller hands each piece to the `UploadForm` it holds and goes on with the
//! form that comes back, or stops at the refusal; at the end of the form,
//! `finish` hands out the file and the password, or says which is missing.

use vstd::prelude::*;

verus! {

/// The largest file that is accepted, in bytes: 10 MiB.
pub const MAX_FILE_SIZE: usize = 10_485_760;

/// Why an upload was turned down.
#[derive(Clone, Copy, Debug, PartialEq, Eq, Structural)]
pub enum UploadError {
    /// The file is longer than `MAX_FILE_SIZE`.
    FileTooLarge,
    /// The form held no file, or an empty one.
    NoFile,
    /// The form held no password.
    NoPassword,
}

/// The pieces of an upload form that were received so far.
pub struct UploadForm {
    file_data: Vec<u8>,
    password: Option<String>,
}

impl UploadForm {
    #[verifier::type_invariant]
    spec fn within_limit(self) -> bool {
        self.file_data@.len() <= MAX_FILE_SIZE
    }

    /// The bytes of the file that were received so far.
    pub closed spec fn file(self) -> Seq<u8> {
        self.file_data@
    }

    /// The password that was received last, if any.
    pub closed spec fn password(self) -> Option<Seq<char>> {
        match self.password {
            Some(password) => Some(password@),
            None => None,
        }
    }

    /// A form of which nothing was received yet.
    pub fn new() -> (form: Self)
        ensures
            form.file() == Seq::<u8>::empty(),
            form.password() is None,
    {
        UploadForm { file_data: Vec::new(), password: None }
    }

    /// Takes the next chunk of the file: the form with the chunk behind what
    /// it held of the file, or a refusal where the file would then be longer
    /// than `MAX_FILE_SIZE`.
    pub fn push_file_chunk(self, chunk: &[u8]) -> (r: Result<UploadForm, UploadError>)
        ensures
            match r {
                Ok(form) => {
                    &&& self.file().len() + chunk@.len() <= MAX_FILE_SIZE
                    &&& form.file() == self.file() + chunk@
                    &&& form.password() == self.password()
                },
                Err(e) => {
                    &&& self.file().len() + chunk@.len() > MAX_FILE_SIZE
                    &&& e == UploadError::FileTooLarge
                },
            },
    {
        proof {
            use_type_invariant(&self);
        }
        if chunk.len() > MAX_FILE_SIZE - self.file_data.len() {
            return Err(UploadError::FileTooLarge);
        }
        let mut file_data = self.file_data;
        file_data.extend_from_slice(chunk);
        assert(file_data@ =~= self.file_data@ + chunk@);
        Ok(UploadForm { file_data, password: self.password })
    }

    /// Takes the password of the form. A later password replaces an earlier
    /// one.
    pub fn set_password(self, password: String) -> (form: UploadForm)
        ensures
            form.password() == Some(password@),
            form.file() == self.file(),
    {
        proof {
            use_type_invariant(&self);
        }
        UploadForm { file_data: self.file_data, password: Some(password) }
    }

    /// Ends the form: its file and password, where it held a file that is not
    /// empty and a password. The file is looked at first.
    pub fn finish(self) -> (r: Result<(Vec<u8>, String), UploadError>)
        ensures
            match r {
                Ok((file, password)) => {
                    &&& file@ == self.file()
                    &&& file@.len() > 0
                    &&& file@.len() <= MAX_FILE_SIZE
                    &&& self.password() == Some(password@)
                },
                Err(e) => if self.file().len() == 0 {
                    e == UploadError::NoFile
                } else {
                    e == UploadError::NoPassword && self.password() is None
                },
            },
    {
        proof {
            use_type_invariant(&self);
        }
        if self.file_data.is_empty() {
            return Err(UploadError::NoFile);
        }
        match self.password {
            Some(password) => Ok((self.file_data, password)),
            None => Err(UploadError::NoPassword),
        }
    }
}

} // verus!
