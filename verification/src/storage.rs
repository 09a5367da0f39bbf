//! File-storage support: upload options, name mangling and the storage
//! backend choice.
//!
//! The uploads themselves — disk writes, remote puts — are I/O and live
//! outside; here stand the pure parts every backend shares.

use vstd::prelude::*;
use vstd::string::StringExecFns;
use vstd::string::StrSliceExecFns;
use crate::text::i64_to_string;
use crate::text::spec_dec_signed;
use crate::text::str_eq;

verus! {

/// A storage failure, by backend: the remote store, the local disk, or the
/// caller's own options.
pub enum StorageError {
    S3(String),
    Io(String),
    InvalidUploadOptions(String),
}

/// The printed form of a storage failure.
pub open spec fn spec_storage_error_message(e: &StorageError) -> Seq<char> {
    match e {
        StorageError::S3(m) => "[Storage Error] S3: "@ + m@,
        StorageError::Io(m) => "[Storage Error] Io: "@ + m@,
        StorageError::InvalidUploadOptions(m) => "[Storage Error] Invalid Upload Options: "@ + m@,
    }
}

impl StorageError {
    /// Renders the failure for operator logs.
    pub fn message(&self) -> (r: String)
        ensures
            r@ == spec_storage_error_message(self),
    {
        let mut out = String::new();
        match self {
            StorageError::S3(m) => {
                out.append("[Storage Error] S3: ");
                out.append(m.as_str());
            },
            StorageError::Io(m) => {
                out.append("[Storage Error] Io: ");
                out.append(m.as_str());
            },
            StorageError::InvalidUploadOptions(m) => {
                out.append("[Storage Error] Invalid Upload Options: ");
                out.append(m.as_str());
            },
        }
        out
    }
}

/// How a file should be stored.
pub struct UploadOptions {
    pub file_name: String,
    pub content_type: Option<String>,
}

impl UploadOptions {
    /// Fresh options: the file is named after the given clock reading (in
    /// milliseconds), with no content type.
    pub fn new(now_millis: i64) -> (r: UploadOptions)
        ensures
            r.file_name@ == spec_dec_signed(now_millis as int),
            r.content_type is None,
    {
        UploadOptions { file_name: i64_to_string(now_millis), content_type: None }
    }

    pub fn set_file_name(self, file_name: String) -> (r: UploadOptions)
        ensures
            r.file_name == file_name,
            r.content_type == self.content_type,
    {
        UploadOptions { file_name, ..self }
    }

    pub fn set_content_type(self, content_type: String) -> (r: UploadOptions)
        ensures
            r.file_name == self.file_name,
            r.content_type == Some(content_type),
    {
        UploadOptions { content_type: Some(content_type), ..self }
    }
}

/// The index of the first dot at or after `i`, or a negative value when
/// there is none.
pub open spec fn spec_first_dot(s: Seq<char>, i: int) -> int
    decreases s.len() - i,
{
    if i < 0 || i >= s.len() {
        -1
    } else if s[i] == '.' {
        i
    } else {
        spec_first_dot(s, i + 1)
    }
}

/// A file name split at its first dot: the stem and the extension; a name
/// without a dot is all stem.
pub open spec fn spec_split_once_dot(s: Seq<char>) -> (Seq<char>, Seq<char>) {
    let i = spec_first_dot(s, 0);
    if i < 0 {
        (s, Seq::empty())
    } else {
        (s.take(i), s.skip(i + 1))
    }
}

/// The stored name for an upload: the stem, the clock reading (in
/// milliseconds), and the extension, dot included even when the original
/// name had none.
pub open spec fn spec_timestamped_name(s: Seq<char>, now_millis: int) -> Seq<char> {
    spec_split_once_dot(s).0 + "_"@ + spec_dec_signed(now_millis) + "."@ + spec_split_once_dot(
        s,
    ).1
}

/// Builds the stored name for an upload so that concurrent uploads of the
/// same file name cannot collide on one clock reading apart.
pub fn timestamped_name(file_name: &str, now_millis: i64) -> (r: String)
    ensures
        r@ == spec_timestamped_name(file_name@, now_millis as int),
{
    let n = file_name.unicode_len();
    let mut i: usize = 0;
    while i < n && file_name.get_char(i) != '.'
        invariant
            i <= n,
            n == file_name@.len(),
            spec_first_dot(file_name@, 0) == spec_first_dot(file_name@, i as int),
        decreases n - i,
    {
        i = i + 1;
    }
    let (stem, ext): (&str, &str) = if i < n {
        proof {
            assert(spec_first_dot(file_name@, 0) == i);
            assert(file_name@.subrange(i + 1, n as int) =~= file_name@.skip(i + 1));
        }
        (file_name.substring_char(0, i), file_name.substring_char(i + 1, n))
    } else {
        proof {
            reveal_strlit("");
            assert(spec_first_dot(file_name@, 0) == -1);
        }
        (file_name, "")
    };
    let mut out = String::new();
    out.append(stem);
    out.append("_");
    let ts = i64_to_string(now_millis);
    out.append(ts.as_str());
    out.append(".");
    out.append(ext);
    proof {
        assert(out@ =~= spec_timestamped_name(file_name@, now_millis as int));
    }
    out
}

/// The local-disk backend: files land under one directory.
pub struct DiskStorage {
    pub path: String,
}

impl DiskStorage {
    /// A backend rooted at the given directory.
    pub fn from_path(path: String) -> (r: DiskStorage)
        ensures
            r.path == path,
    {
        DiskStorage { path }
    }

    /// The full path a file lands at.
    pub fn get_full_path(&self, file_name: &str) -> (r: String)
        ensures
            r@ == self.path@ + "/"@ + file_name@,
    {
        let mut out = String::new();
        out.append(self.path.as_str());
        out.append("/");
        out.append(file_name);
        proof {
            assert(out@ =~= self.path@ + "/"@ + file_name@);
        }
        out
    }
}

/// Which storage backend serves uploads.
#[derive(Clone, Copy, PartialEq, Eq, Structural, Debug)]
pub enum StorageType {
    Disk,
    S3,
}

/// The backend a configuration string selects: only the exact spelling
/// `s3` selects the remote store; anything else, or nothing, means disk.
pub fn storage_type_of(setting: Option<&str>) -> (r: StorageType)
    ensures
        r == (match setting {
            Some(s) => if s@ == "s3"@ {
                StorageType::S3
            } else {
                StorageType::Disk
            },
            None => StorageType::Disk,
        }),
{
    match setting {
        Some(s) => if str_eq(s, "s3") {
            StorageType::S3
        } else {
            StorageType::Disk
        },
        None => StorageType::Disk,
    }
}

} // verus!
