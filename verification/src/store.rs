//! The account directory and the ownership-scoped file-object store over
//! one explicit state value: accounts, file metadata, and content blobs.
//! Every operation of the backend's core is a verified function of this
//! state; the surrounding process keeps the same records in a document
//! database and on disk and replays these decisions against them.
use vstd::prelude::*;

use crate::errors::{ApiError, err_bad_request, err_not_found, err_unauthorized};
use crate::identity::AuthUser;
use crate::ids::{fresh_object_id, is_canonical_object_id, is_object_id, parse_object_id};
use crate::model::{
    AuthResponse, Blob, DownloadOut, FileDoc, FileOut, PublicUser, UploadPart, User,
    file_out_matches, make_names, public_user_matches, upload_mime_spec, upload_name_spec,
};
use crate::password::{bcrypt_check, hash_password, verify_password};
use crate::text::{lower_seq, norm_spec, str_eq, trim_spec};
use crate::token::{jwt_token_of, sign_jwt_at};
use crate::validate::{
    LoginDto, RegisterDto, login_input_valid, parse_visibility, register_input_valid,
    valid_email, valid_role, valid_visibility, validate_login, validate_register,
};

verus! {

/// Index of the first account with this email, if any.
pub open spec fn find_user_idx(users: Seq<User>, email: Seq<char>) -> Option<int>
    decreases users.len(),
{
    if users.len() == 0 {
        None
    } else if users[0].email@ == email {
        Some(0)
    } else {
        shift_idx(find_user_idx(users.drop_first(), email), 1)
    }
}

/// A file object is addressed by id and owner together: a record owned by
/// someone else is indistinguishable from a missing one.
pub open spec fn file_key_match(f: FileDoc, id: Seq<char>, owner: Seq<char>) -> bool {
    f.id@ == id && f.owner_id@ == owner
}

/// Index of the first file object with this id and owner, if any.
pub open spec fn find_file_idx(files: Seq<FileDoc>, id: Seq<char>, owner: Seq<char>) -> Option<
    int,
>
    decreases files.len(),
{
    if files.len() == 0 {
        None
    } else if file_key_match(files[0], id, owner) {
        Some(0)
    } else {
        shift_idx(find_file_idx(files.drop_first(), id, owner), 1)
    }
}

/// Index of the first blob with this stored name, if any.
pub open spec fn find_blob_idx(blobs: Seq<Blob>, name: Seq<char>) -> Option<int>
    decreases blobs.len(),
{
    if blobs.len() == 0 {
        None
    } else if blobs[0].name@ == name {
        Some(0)
    } else {
        shift_idx(find_blob_idx(blobs.drop_first(), name), 1)
    }
}

/// The caller's listing: the file objects with this owner, in storage
/// order.
pub open spec fn owned_files(files: Seq<FileDoc>, owner: Seq<char>) -> Seq<FileDoc> {
    files.filter(|f: FileDoc| f.owner_id@ == owner)
}

pub open spec fn shift_idx(r: Option<int>, i: int) -> Option<int> {
    match r {
        None => None,
        Some(k) => Some(k + i),
    }
}

/// The in-memory store: one collection of accounts, one of file objects,
/// and the content blobs.
pub struct MemStore {
    pub users: Vec<User>,
    pub files: Vec<FileDoc>,
    pub blobs: Vec<Blob>,
}

/// Both states hold exactly the same records.
pub open spec fn same_store(a: MemStore, b: MemStore) -> bool {
    a.users@ == b.users@ && a.files@ == b.files@ && a.blobs@ == b.blobs@
}

impl MemStore {
    /// Some account already carries this email.
    pub open spec fn has_email(self, email: Seq<char>) -> bool {
        find_user_idx(self.users@, email) is Some
    }

    /// The store's invariant: emails are stored in normal form and are
    /// unique; file-object ids are unique; blob names are unique.
    pub open spec fn wf(self) -> bool {
        &&& forall|i: int|
            0 <= i < self.users@.len() ==> (#[trigger] self.users@[i].email@) == norm_spec(
                self.users@[i].email@,
            )
        &&& forall|i: int, j: int|
            0 <= i < j < self.users@.len() ==> (#[trigger] self.users@[i].email@) != (
            #[trigger] self.users@[j].email@)
        &&& forall|i: int, j: int|
            0 <= i < j < self.files@.len() ==> (#[trigger] self.files@[i].id@) != (
            #[trigger] self.files@[j].id@)
        &&& forall|i: int, j: int|
            0 <= i < j < self.blobs@.len() ==> (#[trigger] self.blobs@[i].name@) != (
            #[trigger] self.blobs@[j].name@)
    }

    pub fn new() -> (r: MemStore)
        ensures
            r.users@.len() == 0 && r.files@.len() == 0 && r.blobs@.len() == 0,
            r.wf(),
    {
        MemStore { users: Vec::new(), files: Vec::new(), blobs: Vec::new() }
    }

    /// First account with this email, if any.
    fn find_user(&self, email: &str) -> (r: Option<usize>)
        ensures
            match r {
                Some(i) => 0 <= i < self.users@.len() && find_user_idx(self.users@, email@)
                    == Some(i as int),
                None => find_user_idx(self.users@, email@) is None,
            },
    {
        let n = self.users.len();
        proof {
            assert(self.users@.subrange(0, n as int) =~= self.users@);
        }
        let mut i: usize = 0;
        while i < n
            invariant
                0 <= i <= n,
                n == self.users@.len(),
                find_user_idx(self.users@, email@) == shift_idx(
                    find_user_idx(self.users@.subrange(i as int, n as int), email@),
                    i as int,
                ),
            decreases n - i,
        {
            if str_eq(self.users[i].email.as_str(), email) {
                return Some(i);
            }
            proof {
                let pre = self.users@.subrange(i as int, n as int);
                let post = self.users@.subrange(i as int + 1, n as int);
                assert(pre.drop_first() =~= post);
                assert(pre[0] == self.users@[i as int]);
                assert(find_user_idx(pre, email@) == shift_idx(find_user_idx(post, email@), 1));
            }
            i = i + 1;
        }
        proof {
            assert(self.users@.subrange(i as int, n as int) =~= Seq::<User>::empty());
        }
        None
    }

    /// First file object with this id and owner, if any.
    fn find_file(&self, id: &str, owner: &str) -> (r: Option<usize>)
        ensures
            match r {
                Some(i) => 0 <= i < self.files@.len() && find_file_idx(
                    self.files@,
                    id@,
                    owner@,
                ) == Some(i as int),
                None => find_file_idx(self.files@, id@, owner@) is None,
            },
    {
        let n = self.files.len();
        proof {
            assert(self.files@.subrange(0, n as int) =~= self.files@);
        }
        let mut i: usize = 0;
        while i < n
            invariant
                0 <= i <= n,
                n == self.files@.len(),
                find_file_idx(self.files@, id@, owner@) == shift_idx(
                    find_file_idx(self.files@.subrange(i as int, n as int), id@, owner@),
                    i as int,
                ),
            decreases n - i,
        {
            if str_eq(self.files[i].id.as_str(), id) && str_eq(
                self.files[i].owner_id.as_str(),
                owner,
            ) {
                return Some(i);
            }
            proof {
                let pre = self.files@.subrange(i as int, n as int);
                let post = self.files@.subrange(i as int + 1, n as int);
                assert(pre.drop_first() =~= post);
                assert(pre[0] == self.files@[i as int]);
                assert(!file_key_match(pre[0], id@, owner@));
                assert(find_file_idx(pre, id@, owner@) == shift_idx(
                    find_file_idx(post, id@, owner@),
                    1,
                ));
            }
            i = i + 1;
        }
        proof {
            assert(self.files@.subrange(i as int, n as int) =~= Seq::<FileDoc>::empty());
        }
        None
    }

    /// First blob with this stored name, if any.
    fn find_blob(&self, name: &str) -> (r: Option<usize>)
        ensures
            match r {
                Some(i) => 0 <= i < self.blobs@.len() && find_blob_idx(self.blobs@, name@)
                    == Some(i as int),
                None => find_blob_idx(self.blobs@, name@) is None,
            },
    {
        let n = self.blobs.len();
        proof {
            assert(self.blobs@.subrange(0, n as int) =~= self.blobs@);
        }
        let mut i: usize = 0;
        while i < n
            invariant
                0 <= i <= n,
                n == self.blobs@.len(),
                find_blob_idx(self.blobs@, name@) == shift_idx(
                    find_blob_idx(self.blobs@.subrange(i as int, n as int), name@),
                    i as int,
                ),
            decreases n - i,
        {
            if str_eq(self.blobs[i].name.as_str(), name) {
                return Some(i);
            }
            proof {
                let pre = self.blobs@.subrange(i as int, n as int);
                let post = self.blobs@.subrange(i as int + 1, n as int);
                assert(pre.drop_first() =~= post);
                assert(pre[0] == self.blobs@[i as int]);
                assert(find_blob_idx(pre, name@) == shift_idx(find_blob_idx(post, name@), 1));
            }
            i = i + 1;
        }
        proof {
            assert(self.blobs@.subrange(i as int, n as int) =~= Seq::<Blob>::empty());
        }
        None
    }

    /// Creates an account after normalization, validation, the uniqueness
    /// check, and hashing; answers with the account's projection and a
    /// fresh token whose subject is the new account's id and whose expiry
    /// is `now + 60 * exp_minutes`.
    pub fn register(
        &mut self,
        dto: &RegisterDto,
        secret: &str,
        exp_minutes: i64,
        now: i64,
    ) -> (r: Result<AuthResponse, ApiError>)
        requires
            0 <= now <= 0x4000_0000_0000_0000i64,
            0 <= exp_minutes <= 0x7fff_ffff,
        ensures
            ({
                let name_t = trim_spec(dto.name@);
                let email_n = norm_spec(dto.email@);
                let role_t = trim_spec(dto.role@);
                let valid = register_input_valid(dto.name@, dto.email@, dto.password@, dto.role@);
                &&& (!valid ==> same_store(*old(self), *final(self)) && r is Err)
                &&& (name_t.len() < 2 ==> err_bad_request(r, "name too short"@))
                &&& (name_t.len() >= 2 && !valid_email(email_n) ==> err_bad_request(
                    r,
                    "invalid email"@,
                ))
                &&& (name_t.len() >= 2 && valid_email(email_n) && dto.password@.len() < 6
                    ==> err_bad_request(r, "password too short"@))
                &&& (name_t.len() >= 2 && valid_email(email_n) && dto.password@.len() >= 6
                    && !valid_role(role_t) ==> err_bad_request(
                    r,
                    "role must be 'cliente' or 'colaborador'"@,
                ))
                &&& (valid && old(self).has_email(email_n) ==> same_store(
                    *old(self),
                    *final(self),
                ) && err_bad_request(r, "Email already registered"@))
                &&& (valid && !old(self).has_email(email_n) ==> match r {
                    Ok(resp) => {
                        let u = final(self).users@.last();
                        &&& final(self).users@ == old(self).users@.push(u)
                        &&& final(self).files@ == old(self).files@
                        &&& final(self).blobs@ == old(self).blobs@
                        &&& u.name@ == name_t
                        &&& u.email@ == email_n
                        &&& u.role@ == role_t
                        &&& u.created_at == now
                        &&& is_canonical_object_id(u.id@)
                        &&& u.password_hash matches Some(h) && bcrypt_check(dto.password@, h@)
                            == Some(true) && forall|p2: Seq<char>|
                            (#[trigger] bcrypt_check(p2, h@)) is Some
                        &&& resp.token@ == jwt_token_of(
                            u.id@,
                            email_n,
                            role_t,
                            now + 60 * exp_minutes,
                            secret@,
                        )
                        &&& public_user_matches(resp.user, u)
                    },
                    Err(e) => same_store(*old(self), *final(self)) && (e matches
                        ApiError::Internal || (dto.password@.len() > 72 && err_bad_request(
                        r,
                        "password too long"@,
                    ))),
                })
                &&& (old(self).wf() ==> final(self).wf())
            }),
    {
        let d = match validate_register(dto) {
            Ok(d) => d,
            Err(e) => {
                return Err(e);
            },
        };
        if self.find_user(d.email.as_str()).is_some() {
            return Err(ApiError::BadRequest(String::from_str("Email already registered")));
        }
        let hash = match hash_password(d.password.as_str()) {
            Ok(h) => h,
            Err(e) => {
                return Err(e);
            },
        };
        let id = fresh_object_id();
        let exp: i64 = now + 60i64 * exp_minutes;
        let token = sign_jwt_at(id.as_str(), d.email.as_str(), d.role.as_str(), secret, exp as u64);
        let user = User {
            id,
            name: d.name,
            email: d.email,
            role: d.role,
            password_hash: Some(hash),
            created_at: now,
        };
        let pu = user.to_public();
        proof {
            lemma_find_user_idx_spec(old(self).users@, user.email@);
            crate::text::lemma_norm_idempotent(dto.email@);
        }
        self.users.push(user);
        Ok(AuthResponse { token, user: pu })
    }

    /// Checks credentials and answers with the account and a fresh token,
    /// or one undifferentiated rejection: an unknown email, a wrong
    /// password, and an account without a credential hash are
    /// indistinguishable to the caller.
    pub fn login(&self, dto: &LoginDto, secret: &str, exp_minutes: i64, now: i64) -> (r: Result<
        AuthResponse,
        ApiError,
    >)
        requires
            0 <= now <= 0x4000_0000_0000_0000i64,
            0 <= exp_minutes <= 0x7fff_ffff,
        ensures
            ({
                let email_n = norm_spec(dto.email@);
                let valid = login_input_valid(dto.email@, dto.password@);
                &&& (!valid_email(email_n) ==> err_bad_request(r, "invalid email"@))
                &&& (valid_email(email_n) && dto.password@.len() < 6 ==> err_bad_request(
                    r,
                    "password too short"@,
                ))
                &&& (valid ==> match find_user_idx(self.users@, email_n) {
                    None => err_unauthorized(r, "Invalid credentials"@),
                    Some(k) => {
                        let u = self.users@[k];
                        match u.password_hash {
                            None => err_unauthorized(r, "Invalid credentials"@),
                            Some(h) => match bcrypt_check(dto.password@, h@) {
                                None => r matches Err(ApiError::Internal),
                                Some(false) => err_unauthorized(r, "Invalid credentials"@),
                                Some(true) => match r {
                                    Ok(resp) => {
                                        &&& resp.token@ == jwt_token_of(
                                            u.id@,
                                            u.email@,
                                            u.role@,
                                            now + 60 * exp_minutes,
                                            secret@,
                                        )
                                        &&& public_user_matches(resp.user, u)
                                    },
                                    Err(_) => false,
                                },
                            },
                        }
                    },
                })
            }),
    {
        let d = match validate_login(dto) {
            Ok(d) => d,
            Err(e) => {
                return Err(e);
            },
        };
        let idx = match self.find_user(d.email.as_str()) {
            Some(i) => i,
            None => {
                return Err(ApiError::Unauthorized(String::from_str("Invalid credentials")));
            },
        };
        let user = self.users[idx].duplicate();
        let hash = match &user.password_hash {
            Some(h) => h.clone(),
            None => {
                return Err(ApiError::Unauthorized(String::from_str("Invalid credentials")));
            },
        };
        let ok = match verify_password(d.password.as_str(), hash.as_str()) {
            Ok(b) => b,
            Err(_) => {
                return Err(ApiError::Internal);
            },
        };
        if !ok {
            return Err(ApiError::Unauthorized(String::from_str("Invalid credentials")));
        }
        let exp: i64 = now + 60i64 * exp_minutes;
        let token = sign_jwt_at(
            user.id.as_str(),
            user.email.as_str(),
            user.role.as_str(),
            secret,
            exp as u64,
        );
        let pu = user.to_public();
        Ok(AuthResponse { token, user: pu })
    }

    /// Stores one uploaded file part: the content blob is recorded first,
    /// then the metadata row, owned by the caller, private by default,
    /// under a fresh stored name derived from a fresh id and the sanitized
    /// client filename. No part at all is a rejection.
    pub fn upload(&mut self, user: &AuthUser, part: Option<UploadPart>, now: i64) -> (r: Result<
        FileOut,
        ApiError,
    >)
        ensures
            part is None ==> same_store(*old(self), *final(self)) && err_bad_request(
                r,
                "No file uploaded"@,
            ),
            part matches Some(p) ==> match r {
                Ok(out) => {
                    let f = final(self).files@.last();
                    let b = final(self).blobs@.last();
                    &&& final(self).users@ == old(self).users@
                    &&& final(self).files@ == old(self).files@.push(f)
                    &&& final(self).blobs@ == old(self).blobs@.push(b)
                    &&& is_canonical_object_id(f.id@)
                    &&& forall|j: int|
                        0 <= j < old(self).files@.len() ==> (#[trigger] old(
                            self,
                        ).files@[j].id@) != f.id@
                    &&& forall|j: int|
                        0 <= j < old(self).blobs@.len() ==> (#[trigger] old(
                            self,
                        ).blobs@[j].name@) != f.stored_name@
                    &&& f.owner_id@ == user.user_id@
                    &&& f.original_name@ == upload_name_spec(match p.filename {
                        Some(n) => Some(n@),
                        None => None,
                    })
                    &&& f.stored_name@ == f.id@ + "_"@ + f.original_name@
                    &&& f.mime@ == upload_mime_spec(match p.mime {
                        Some(m) => Some(m@),
                        None => None,
                    })
                    &&& f.size == p.data@.len()
                    &&& f.visibility@ == "private"@
                    &&& f.created_at == now && f.updated_at == now
                    &&& b.name@ == f.stored_name@ && b.data@ == p.data@
                    &&& file_out_matches(out, f)
                },
                Err(e) => same_store(*old(self), *final(self)) && e matches ApiError::Internal,
            },
            old(self).wf() ==> final(self).wf(),
    {
        let p = match part {
            Some(p) => p,
            None => {
                return Err(ApiError::BadRequest(String::from_str("No file uploaded")));
            },
        };
        let id = fresh_object_id();
        let (original_name, stored_name) = make_names(id.as_str(), &p.filename);
        if self.find_file_id(id.as_str()).is_some() {
            return Err(ApiError::Internal);
        }
        if self.find_blob(stored_name.as_str()).is_some() {
            return Err(ApiError::Internal);
        }
        let mime = match p.mime {
            Some(m) => m,
            None => String::from_str("application/octet-stream"),
        };
        let size = p.data.len();
        let blob = Blob { name: stored_name.clone(), data: p.data };
        let doc = FileDoc {
            id,
            owner_id: user.user_id.clone(),
            original_name,
            stored_name,
            mime,
            size,
            visibility: String::from_str("private"),
            created_at: now,
            updated_at: now,
        };
        let out = doc.to_out();
        proof {
            lemma_find_blob_idx_spec(old(self).blobs@, blob.name@);
        }
        self.blobs.push(blob);
        self.files.push(doc);
        Ok(out)
    }

    /// First file object with this id under any owner, if any.
    fn find_file_id(&self, id: &str) -> (r: Option<usize>)
        ensures
            match r {
                Some(i) => 0 <= i < self.files@.len() && self.files@[i as int].id@ == id@,
                None => forall|j: int|
                    0 <= j < self.files@.len() ==> (#[trigger] self.files@[j].id@) != id@,
            },
    {
        let n = self.files.len();
        let mut i: usize = 0;
        while i < n
            invariant
                0 <= i <= n,
                n == self.files@.len(),
                forall|j: int| 0 <= j < i ==> (#[trigger] self.files@[j].id@) != id@,
            decreases n - i,
        {
            if str_eq(self.files[i].id.as_str(), id) {
                return Some(i);
            }
            i = i + 1;
        }
        None
    }

    /// Every file object the caller owns, as its public projection, in
    /// storage order.
    pub fn list(&self, user: &AuthUser) -> (r: Vec<FileOut>)
        ensures
            ({
                let owned = owned_files(self.files@, user.user_id@);
                &&& r@.len() == owned.len()
                &&& forall|j: int| 0 <= j < owned.len() ==> file_out_matches(#[trigger] r@[j], owned[j])
            }),
    {
        let n = self.files.len();
        let mut out: Vec<FileOut> = Vec::new();
        proof {
            assert(self.files@.subrange(0, 0) =~= Seq::<FileDoc>::empty());
            reveal(Seq::filter);
            assert(owned_files(Seq::<FileDoc>::empty(), user.user_id@) =~= Seq::<
                FileDoc,
            >::empty());
        }
        let mut i: usize = 0;
        while i < n
            invariant
                0 <= i <= n,
                n == self.files@.len(),
                ({
                    let owned = owned_files(self.files@.subrange(0, i as int), user.user_id@);
                    &&& out@.len() == owned.len()
                    &&& forall|j: int|
                        0 <= j < owned.len() ==> file_out_matches(#[trigger] out@[j], owned[j])
                }),
            decreases n - i,
        {
            proof {
                let prefix = self.files@.subrange(0, i as int);
                let ext = self.files@.subrange(0, i as int + 1);
                assert(ext.drop_last() =~= prefix);
                assert(ext.last() == self.files@[i as int]);
                reveal_with_fuel(Seq::filter, 2);
                assert(owned_files(ext, user.user_id@) == (if self.files@[i as int].owner_id@
                    == user.user_id@ {
                    owned_files(prefix, user.user_id@).push(self.files@[i as int])
                } else {
                    owned_files(prefix, user.user_id@)
                }));
            }
            if str_eq(self.files[i].owner_id.as_str(), user.user_id.as_str()) {
                let o = self.files[i].to_out();
                out.push(o);
            }
            i = i + 1;
        }
        proof {
            assert(self.files@.subrange(0, n as int) =~= self.files@);
        }
        out
    }

    /// Hands back the stored bytes, the declared MIME type, and the
    /// attachment header for one owned file object. A malformed id is a
    /// rejection; a file owned by someone else is indistinguishable from a
    /// missing one; metadata whose blob is gone is reported missing.
    pub fn download(&self, user: &AuthUser, file_id: &str) -> (r: Result<DownloadOut, ApiError>)
        ensures
            !is_object_id(file_id@) ==> err_bad_request(r, "Invalid file id"@),
            is_object_id(file_id@) ==> ({
                let idn = lower_seq(file_id@);
                match find_file_idx(self.files@, idn, user.user_id@) {
                    None => err_not_found(r, "File not found"@),
                    Some(k) => {
                        let f = self.files@[k];
                        match find_blob_idx(self.blobs@, f.stored_name@) {
                            None => err_not_found(r, "File missing on disk"@),
                            Some(b) => match r {
                                Ok(d) => {
                                    &&& d.content@ == self.blobs@[b].data@
                                    &&& d.mime@ == f.mime@
                                    &&& d.original_name@ == f.original_name@
                                    &&& d.disposition@ == "attachment; filename=\""@
                                        + f.original_name@ + "\""@
                                },
                                Err(_) => false,
                            },
                        }
                    },
                }
            }),
    {
        let id = match parse_object_id(file_id) {
            Some(i) => i,
            None => {
                return Err(ApiError::BadRequest(String::from_str("Invalid file id")));
            },
        };
        let idx = match self.find_file(id.as_str(), user.user_id.as_str()) {
            Some(i) => i,
            None => {
                return Err(ApiError::NotFound(String::from_str("File not found")));
            },
        };
        let stored = self.files[idx].stored_name.clone();
        let bidx = match self.find_blob(stored.as_str()) {
            Some(b) => b,
            None => {
                return Err(ApiError::NotFound(String::from_str("File missing on disk")));
            },
        };
        let content = crate::model::copy_bytes(&self.blobs[bidx].data);
        let f = &self.files[idx];
        let disposition = String::from_str("attachment; filename=\"").concat(
            f.original_name.as_str(),
        ).concat("\"");
        Ok(DownloadOut {
            content,
            mime: f.mime.clone(),
            original_name: f.original_name.clone(),
            disposition,
        })
    }

    /// Sets the visibility of one owned file object to `public` or
    /// `private` (case-insensitive, trimmed) and refreshes its update
    /// timestamp; anything else changes nothing. The lookup is scoped by
    /// owner exactly as in download.
    pub fn set_visibility(
        &mut self,
        user: &AuthUser,
        file_id: &str,
        visibility: &str,
        now: i64,
    ) -> (r: Result<String, ApiError>)
        ensures
            !is_object_id(file_id@) ==> same_store(*old(self), *final(self)) && err_bad_request(
                r,
                "Invalid file id"@,
            ),
            is_object_id(file_id@) && !valid_visibility(norm_spec(visibility@)) ==> same_store(
                *old(self),
                *final(self),
            ) && err_bad_request(r, "visibility must be public|private"@),
            is_object_id(file_id@) && valid_visibility(norm_spec(visibility@)) ==> ({
                let idn = lower_seq(file_id@);
                let v = norm_spec(visibility@);
                match find_file_idx(old(self).files@, idn, user.user_id@) {
                    None => same_store(*old(self), *final(self)) && err_not_found(
                        r,
                        "File not found"@,
                    ),
                    Some(k) => {
                        let f0 = old(self).files@[k];
                        let f1 = final(self).files@[k];
                        &&& r matches Ok(o) && o@ == v
                        &&& final(self).users@ == old(self).users@
                        &&& final(self).blobs@ == old(self).blobs@
                        &&& final(self).files@.len() == old(self).files@.len()
                        &&& forall|j: int|
                            0 <= j < old(self).files@.len() && j != k ==> final(self).files@[j]
                                == (#[trigger] old(self).files@[j])
                        &&& f1.id@ == f0.id@ && f1.owner_id@ == f0.owner_id@
                        &&& f1.original_name@ == f0.original_name@
                        &&& f1.stored_name@ == f0.stored_name@
                        &&& f1.mime@ == f0.mime@ && f1.size == f0.size
                        &&& f1.created_at == f0.created_at
                        &&& f1.visibility@ == v && f1.updated_at == now
                    },
                }
            }),
            old(self).wf() ==> final(self).wf(),
    {
        let id = match parse_object_id(file_id) {
            Some(i) => i,
            None => {
                return Err(ApiError::BadRequest(String::from_str("Invalid file id")));
            },
        };
        let v = match parse_visibility(visibility) {
            Ok(v) => v,
            Err(e) => {
                return Err(e);
            },
        };
        let idx = match self.find_file(id.as_str(), user.user_id.as_str()) {
            Some(i) => i,
            None => {
                return Err(ApiError::NotFound(String::from_str("File not found")));
            },
        };
        let f = self.files.remove(idx);
        let updated = FileDoc {
            id: f.id,
            owner_id: f.owner_id,
            original_name: f.original_name,
            stored_name: f.stored_name,
            mime: f.mime,
            size: f.size,
            visibility: v.clone(),
            created_at: f.created_at,
            updated_at: now,
        };
        self.files.insert(idx, updated);
        proof {
            assert(final(self).files@ =~= old(self).files@.update(
                idx as int,
                final(self).files@[idx as int],
            ));
        }
        Ok(v)
    }

    /// Removes one owned file object: the blob goes best-effort, the
    /// metadata row authoritatively. A second deletion of the same id is
    /// not found.
    pub fn delete(&mut self, user: &AuthUser, file_id: &str) -> (r: Result<(), ApiError>)
        ensures
            !is_object_id(file_id@) ==> same_store(*old(self), *final(self)) && err_bad_request(
                r,
                "Invalid file id"@,
            ),
            is_object_id(file_id@) ==> ({
                let idn = lower_seq(file_id@);
                match find_file_idx(old(self).files@, idn, user.user_id@) {
                    None => same_store(*old(self), *final(self)) && err_not_found(
                        r,
                        "File not found"@,
                    ),
                    Some(k) => {
                        let f = old(self).files@[k];
                        &&& r is Ok
                        &&& final(self).users@ == old(self).users@
                        &&& final(self).files@ == old(self).files@.remove(k)
                        &&& final(self).blobs@ == (match find_blob_idx(
                            old(self).blobs@,
                            f.stored_name@,
                        ) {
                            Some(b) => old(self).blobs@.remove(b),
                            None => old(self).blobs@,
                        })
                    },
                }
            }),
            old(self).wf() ==> final(self).wf(),
    {
        let id = match parse_object_id(file_id) {
            Some(i) => i,
            None => {
                return Err(ApiError::BadRequest(String::from_str("Invalid file id")));
            },
        };
        let idx = match self.find_file(id.as_str(), user.user_id.as_str()) {
            Some(i) => i,
            None => {
                return Err(ApiError::NotFound(String::from_str("File not found")));
            },
        };
        let f = self.files.remove(idx);
        match self.find_blob(f.stored_name.as_str()) {
            Some(b) => {
                let _ = self.blobs.remove(b);
            },
            None => (),
        }
        Ok(())
    }
}

/// Spells out what the account index lookup means: the found account
/// carries the email, everything before it does not, and a miss means no
/// account carries it.
pub proof fn lemma_find_user_idx_spec(users: Seq<User>, email: Seq<char>)
    ensures
        match find_user_idx(users, email) {
            None => forall|i: int| 0 <= i < users.len() ==> (#[trigger] users[i].email@) != email,
            Some(k) => 0 <= k < users.len() && users[k].email@ == email && forall|i: int|
                0 <= i < k ==> (#[trigger] users[i].email@) != email,
        },
    decreases users.len(),
{
    if users.len() > 0 && users[0].email@ != email {
        lemma_find_user_idx_spec(users.drop_first(), email);
        assert(forall|i: int| 1 <= i < users.len() ==> users[i] == users.drop_first()[i - 1]);
    }
}

/// Spells out what the file index lookup means.
pub proof fn lemma_find_file_idx_spec(files: Seq<FileDoc>, id: Seq<char>, owner: Seq<char>)
    ensures
        match find_file_idx(files, id, owner) {
            None => forall|i: int|
                0 <= i < files.len() ==> !file_key_match(#[trigger] files[i], id, owner),
            Some(k) => 0 <= k < files.len() && file_key_match(files[k], id, owner) && forall|
                i: int,
            | 0 <= i < k ==> !file_key_match(#[trigger] files[i], id, owner),
        },
    decreases files.len(),
{
    if files.len() > 0 && !file_key_match(files[0], id, owner) {
        lemma_find_file_idx_spec(files.drop_first(), id, owner);
        assert(forall|i: int| 1 <= i < files.len() ==> files[i] == files.drop_first()[i - 1]);
    }
}

/// Spells out what the blob index lookup means.
pub proof fn lemma_find_blob_idx_spec(blobs: Seq<Blob>, name: Seq<char>)
    ensures
        match find_blob_idx(blobs, name) {
            None => forall|i: int| 0 <= i < blobs.len() ==> (#[trigger] blobs[i].name@) != name,
            Some(k) => 0 <= k < blobs.len() && blobs[k].name@ == name && forall|i: int|
                0 <= i < k ==> (#[trigger] blobs[i].name@) != name,
        },
    decreases blobs.len(),
{
    if blobs.len() > 0 && blobs[0].name@ != name {
        lemma_find_blob_idx_spec(blobs.drop_first(), name);
        assert(forall|i: int| 1 <= i < blobs.len() ==> blobs[i] == blobs.drop_first()[i - 1]);
    }
}

} // verus!
