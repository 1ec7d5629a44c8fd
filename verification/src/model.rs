//! The persisted records and their public projections: accounts, file
//! objects (metadata), stored content blobs, and the naming rule that ties
//! a file object to its blob.
use vstd::prelude::*;

verus! {

/// A persisted account.
pub struct User {
    pub id: String,
    pub name: String,
    pub email: String,
    pub role: String,
    pub password_hash: Option<String>,
    pub created_at: i64,
}

/// The client-visible projection of an account: everything but the
/// credential hash.
pub struct PublicUser {
    pub id: String,
    pub name: String,
    pub email: String,
    pub role: String,
    pub created_at: i64,
}

/// What registration and login hand back: a fresh token and the account.
pub struct AuthResponse {
    pub token: String,
    pub user: PublicUser,
}

/// A persisted file object: metadata of one owned, stored byte blob.
pub struct FileDoc {
    pub id: String,
    pub owner_id: String,
    pub original_name: String,
    pub stored_name: String,
    pub mime: String,
    pub size: usize,
    pub visibility: String,
    pub created_at: i64,
    pub updated_at: i64,
}

/// The client-visible projection of a file object: everything but the
/// stored name, which only addresses content and is never exposed.
pub struct FileOut {
    pub id: String,
    pub owner_id: String,
    pub original_name: String,
    pub mime: String,
    pub size: usize,
    pub visibility: String,
    pub created_at: i64,
    pub updated_at: i64,
}

/// One stored byte blob, addressed solely by its stored name.
pub struct Blob {
    pub name: String,
    pub data: Vec<u8>,
}

/// One file part read from an upload request: the client-declared filename
/// and MIME type (both untrusted and optional) and the content bytes.
pub struct UploadPart {
    pub filename: Option<String>,
    pub mime: Option<String>,
    pub data: Vec<u8>,
}

/// What a download hands back: the bytes, the declared MIME type, and the
/// attachment header value carrying the original name.
pub struct DownloadOut {
    pub content: Vec<u8>,
    pub mime: String,
    pub original_name: String,
    pub disposition: String,
}

/// The projection keeps every field of the record except the hash.
pub open spec fn public_user_matches(p: PublicUser, u: User) -> bool {
    &&& p.id@ == u.id@
    &&& p.name@ == u.name@
    &&& p.email@ == u.email@
    &&& p.role@ == u.role@
    &&& p.created_at == u.created_at
}

/// The projection keeps every field of the record except the stored name.
pub open spec fn file_out_matches(o: FileOut, f: FileDoc) -> bool {
    &&& o.id@ == f.id@
    &&& o.owner_id@ == f.owner_id@
    &&& o.original_name@ == f.original_name@
    &&& o.mime@ == f.mime@
    &&& o.size == f.size
    &&& o.visibility@ == f.visibility@
    &&& o.created_at == f.created_at
    &&& o.updated_at == f.updated_at
}

impl User {
    /// A field-wise copy (the credential hash included).
    pub fn duplicate(&self) -> (r: User)
        ensures
            r.id@ == self.id@ && r.name@ == self.name@ && r.email@ == self.email@ && r.role@
                == self.role@ && r.created_at == self.created_at,
            match (r.password_hash, self.password_hash) {
                (Some(a), Some(b)) => a@ == b@,
                (None, None) => true,
                _ => false,
            },
    {
        User {
            id: self.id.clone(),
            name: self.name.clone(),
            email: self.email.clone(),
            role: self.role.clone(),
            password_hash: match &self.password_hash {
                Some(h) => Some(h.clone()),
                None => None,
            },
            created_at: self.created_at,
        }
    }

    /// The client-visible projection.
    pub fn to_public(&self) -> (r: PublicUser)
        ensures
            public_user_matches(r, *self),
    {
        PublicUser {
            id: self.id.clone(),
            name: self.name.clone(),
            email: self.email.clone(),
            role: self.role.clone(),
            created_at: self.created_at,
        }
    }
}

impl FileDoc {
    /// The client-visible projection.
    pub fn to_out(&self) -> (r: FileOut)
        ensures
            file_out_matches(r, *self),
    {
        FileOut {
            id: self.id.clone(),
            owner_id: self.owner_id.clone(),
            original_name: self.original_name.clone(),
            mime: self.mime.clone(),
            size: self.size,
            visibility: self.visibility.clone(),
            created_at: self.created_at,
            updated_at: self.updated_at,
        }
    }
}

/// What the filename sanitizer returns for a given input.
pub uninterp spec fn sanitized(name: Seq<char>) -> Seq<char>;

/// Relies on sanitize_filename::sanitize_with_options with fixed options
/// (no platform-specific rules, truncation on, empty replacement): the
/// result is a deterministic function of the name, with path separators
/// and the other illegal characters removed.
#[verifier::external_body]
pub(crate) fn sanitize_name(name: &str) -> (r: String)
    ensures
        r@ == sanitized(name@),
        forall|i: int| 0 <= i < r@.len() ==> #[trigger] r@[i] != '/' && r@[i] != '\\',
{
    let opts = sanitize_filename::Options { windows: false, truncate: true, replacement: "" };
    sanitize_filename::sanitize_with_options(name, opts)
}

/// The original name a file object records for a client-declared filename.
pub open spec fn upload_name_spec(filename: Option<Seq<char>>) -> Seq<char> {
    match filename {
        Some(n) => sanitized(n),
        None => "file.bin"@,
    }
}

/// The MIME type recorded for a client-declared one.
pub open spec fn upload_mime_spec(mime: Option<Seq<char>>) -> Seq<char> {
    match mime {
        Some(m) => m,
        None => "application/octet-stream"@,
    }
}

/// Sanitizes (or defaults) the client filename and derives the stored
/// name: the fresh id, an underscore, then the sanitized original name.
pub fn make_names(fresh_id: &str, filename: &Option<String>) -> (r: (String, String))
    ensures
        r.0@ == upload_name_spec(match filename {
            Some(n) => Some(n@),
            None => None,
        }),
        r.1@ == fresh_id@ + "_"@ + r.0@,
{
    let original = match filename {
        Some(n) => sanitize_name(n.as_str()),
        None => String::from_str("file.bin"),
    };
    let stored = String::from_str(fresh_id).concat("_").concat(original.as_str());
    (original, stored)
}

/// A byte-for-byte copy of stored content.
pub fn copy_bytes(data: &Vec<u8>) -> (r: Vec<u8>)
    ensures
        r@ == data@,
{
    let mut v: Vec<u8> = Vec::new();
    let n = data.len();
    let mut i: usize = 0;
    while i < n
        invariant
            0 <= i <= n,
            n == data@.len(),
            v@ == data@.subrange(0, i as int),
        decreases n - i,
    {
        v.push(data[i]);
        proof {
            assert(v@ =~= data@.subrange(0, i as int + 1));
        }
        i = i + 1;
    }
    proof {
        assert(data@.subrange(0, n as int) =~= data@);
    }
    v
}

} // verus!
