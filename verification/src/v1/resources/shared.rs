use crate::v1::error::BuilderError;
use vstd::prelude::*;
use vstd::string::StringExecFns;

verus! {

/// `bytes::Bytes`, a cheaply cloneable slice of memory. Its fields are not
/// visible to the verifier; what it holds is spoken of through
/// [`bytes_contents`].
#[verifier::external_type_specification]
#[verifier::external_body]
pub struct ExBytes(bytes::Bytes);

/// The bytes that a `Bytes` value holds, in order: what its `as_ref` and
/// `deref` hand out as a slice.
pub uninterp spec fn bytes_contents(b: bytes::Bytes) -> Seq<u8>;

/// `Bytes::clone` makes a second handle on the same memory, so the clone
/// holds the same bytes as the value it was made from.
pub assume_specification[ <bytes::Bytes as Clone>::clone ](b: &bytes::Bytes) -> (copy: bytes::Bytes)
    ensures
        bytes_contents(copy) == bytes_contents(*b),
;

/// `Bytes::eq` compares the two values as slices: they are equal exactly
/// when they hold the same bytes.
pub assume_specification[ <bytes::Bytes as PartialEq>::eq ](
    a: &bytes::Bytes,
    b: &bytes::Bytes,
) -> (same: bool)
    ensures
        same == (bytes_contents(*a) == bytes_contents(*b)),
;

/// A file held in memory, with the name under which it is uploaded.
#[derive(Debug, PartialEq)]
pub struct FileUploadBytes {
    pub bytes: bytes::Bytes,
    pub filename: String,
}

/// What a [`FileUploadBytes`] holds: its bytes and its file name.
pub struct FileUploadBytesView {
    pub bytes: Seq<u8>,
    pub filename: Seq<char>,
}

impl View for FileUploadBytes {
    type V = FileUploadBytesView;

    open spec fn view(&self) -> FileUploadBytesView {
        FileUploadBytesView { bytes: bytes_contents(self.bytes), filename: self.filename@ }
    }
}

impl Clone for FileUploadBytes {
    fn clone(&self) -> (copy: FileUploadBytes)
        ensures
            copy@ == self@,
    {
        FileUploadBytes { bytes: self.bytes.clone(), filename: self.filename.clone() }
    }
}

/// A file to send along with a request: either bytes held in memory or the
/// path of a file on disk.
#[derive(Debug, PartialEq)]
pub enum FileUpload {
    Bytes(FileUploadBytes),
    File(String),
}

/// What a [`FileUpload`] holds.
pub enum FileUploadView {
    Bytes(FileUploadBytesView),
    File(Seq<char>),
}

impl View for FileUpload {
    type V = FileUploadView;

    open spec fn view(&self) -> FileUploadView {
        match self {
            FileUpload::Bytes(file) => FileUploadView::Bytes(file@),
            FileUpload::File(path) => FileUploadView::File(path@),
        }
    }
}

impl Clone for FileUpload {
    fn clone(&self) -> (copy: FileUpload)
        ensures
            copy@ == self@,
    {
        match self {
            FileUpload::Bytes(file) => FileUpload::Bytes(file.clone()),
            FileUpload::File(path) => FileUpload::File(path.clone()),
        }
    }
}

impl Default for FileUpload {
    /// The upload that names no file: a path of length zero.
    fn default() -> (upload: FileUpload)
        ensures
            upload@ == FileUploadView::File(Seq::empty()),
    {
        FileUpload::File(String::new())
    }
}

/// The optional query of a listing.
#[derive(Debug, Clone, PartialEq)]
pub struct SimpleListParameters {
    /// Identifier of the last object of the previous page; the listing goes on
    /// behind it.
    pub after: Option<String>,
    /// The number of objects to return.
    pub limit: Option<u32>,
}

/// What a [`SimpleListParameters`] holds.
pub struct SimpleListParametersView {
    pub after: Option<Seq<char>>,
    pub limit: Option<u32>,
}

impl View for SimpleListParameters {
    type V = SimpleListParametersView;

    open spec fn view(&self) -> SimpleListParametersView {
        SimpleListParametersView {
            after: match self.after {
                Some(after) => Some(after@),
                None => None,
            },
            limit: self.limit,
        }
    }
}

impl Default for SimpleListParameters {
    fn default() -> (parameters: SimpleListParameters)
        ensures
            parameters@ == (SimpleListParametersView {
                after: None,
                limit: None,
            }),
    {
        SimpleListParameters {
            after: None,
            limit: None,
        }
    }
}

/// Collects the fields of a [`SimpleListParameters`] one by one. No field is
/// required.
#[derive(Debug, Clone)]
pub struct SimpleListParametersBuilder {
    after: Option<String>,
    limit: Option<u32>,
}

/// What a [`SimpleListParametersBuilder`] has collected so far: for each field
/// the value it was last given, or `None` if it was never set.
pub struct SimpleListParametersBuilderView {
    pub after: Option<Seq<char>>,
    pub limit: Option<u32>,
}

impl SimpleListParametersBuilderView {
    /// The builder to which nothing has been given.
    pub open spec fn empty() -> SimpleListParametersBuilderView {
        SimpleListParametersBuilderView {
            after: None,
            limit: None,
        }
    }

    /// The name of the first required field that is still unset, if any.
    pub open spec fn missing(self) -> Option<Seq<char>> {
        None
    }

    /// The parameters that these fields make up once nothing is missing.
    pub open spec fn built(self) -> SimpleListParametersView
        recommends
            self.missing() is None,
    {
        SimpleListParametersView {
            after: self.after,
            limit: self.limit,
        }
    }
}

impl View for SimpleListParametersBuilder {
    type V = SimpleListParametersBuilderView;

    closed spec fn view(&self) -> SimpleListParametersBuilderView {
        SimpleListParametersBuilderView {
            after: match self.after {
                Some(after) => Some(after@),
                None => None,
            },
            limit: self.limit,
        }
    }
}

impl Default for SimpleListParametersBuilder {
    fn default() -> (builder: SimpleListParametersBuilder)
        ensures
            builder@ == SimpleListParametersBuilderView::empty(),
    {
        SimpleListParametersBuilder {
            after: None,
            limit: None,
        }
    }
}

impl SimpleListParametersBuilder {
    /// Identifier of the last object of the previous page; the listing goes on
    /// behind it.
    pub fn after(&mut self, value: &str) -> (builder: &mut SimpleListParametersBuilder)
        ensures
            *final(self) == *final(builder),
            builder@ == (SimpleListParametersBuilderView { after: Some(value@), ..old(self)@ }),
    {
        self.after = Some(String::from_str(value));
        self
    }

    /// The number of objects to return.
    pub fn limit(&mut self, value: u32) -> (builder: &mut SimpleListParametersBuilder)
        ensures
            *final(self) == *final(builder),
            builder@ == (SimpleListParametersBuilderView { limit: Some(value), ..old(self)@ }),
    {
        self.limit = Some(value);
        self
    }

    /// The parameters collected so far, or the name of the first required field
    /// that was never set.
    pub fn build(&self) -> (result: Result<SimpleListParameters, BuilderError>)
        ensures
            match self@.missing() {
                Some(field) => result matches Err(BuilderError::UninitializedField(name))
                    && name@ == field,
                None => result matches Ok(parameters) && parameters@ == self@.built(),
            },
    {
        let after = match &self.after {
            Some(after) => Some(after.clone()),
            None => None,
        };
        Ok(
            SimpleListParameters {
                after,
                limit: self.limit,
            },
        )
    }
}

} // verus!
