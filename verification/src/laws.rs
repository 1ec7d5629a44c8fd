//! The store-level laws: what holds across several operations — how the
//! set of taken emails evolves, why equal normal forms conflict, why an
//! upload is found again by its owner and by nobody else, and why a
//! deleted file object stays gone.
use vstd::prelude::*;

use crate::model::{Blob, FileDoc, User};
use crate::store::{
    MemStore, file_key_match, find_blob_idx, find_file_idx, find_user_idx,
    lemma_find_file_idx_spec, owned_files,
};
use crate::text::norm_spec;

verus! {

/// Adding one account takes exactly one more email: lookups for every
/// other email are unchanged.
pub proof fn lemma_find_user_push(users: Seq<User>, u: User, e: Seq<char>)
    ensures
        find_user_idx(users.push(u), e) is Some <==> (find_user_idx(users, e) is Some || u.email@
            == e),
    decreases users.len(),
{
    if users.len() == 0 {
        assert(users.push(u)[0] == u);
        if u.email@ != e {
            assert(users.push(u).drop_first() =~= Seq::<User>::empty());
            assert(find_user_idx(Seq::<User>::empty(), e) is None);
        }
    } else {
        assert(users.push(u)[0] == users[0]);
        if users[0].email@ != e {
            assert(users.push(u).drop_first() =~= users.drop_first().push(u));
            lemma_find_user_push(users.drop_first(), u, e);
        }
    }
}

/// After a successful registration the new normalized email is taken and
/// every other email's status is unchanged: registrations under distinct
/// normalized emails all succeed, registrations under one normal form
/// conflict from the second on.
pub proof fn lemma_emails_taken_after_register(s: MemStore, t: MemStore, u: User, e: Seq<char>)
    requires
        t.users@ == s.users@.push(u),
    ensures
        t.has_email(e) <==> (s.has_email(e) || u.email@ == e),
{
    lemma_find_user_push(s.users@, u, e);
}

/// Two inputs with one normal form cannot both register: once an account
/// holds that normal form, the lookup under the other input's normal form
/// hits it.
pub proof fn lemma_same_normal_form_conflicts(
    s: MemStore,
    t: MemStore,
    u: User,
    e1: Seq<char>,
    e2: Seq<char>,
)
    requires
        t.users@ == s.users@.push(u),
        u.email@ == norm_spec(e1),
        norm_spec(e1) == norm_spec(e2),
    ensures
        t.has_email(norm_spec(e2)),
{
    lemma_find_user_push(s.users@, u, norm_spec(e2));
}

/// A push at the end is found exactly when nothing before it matched.
proof fn lemma_find_file_push_miss(files: Seq<FileDoc>, f: FileDoc, id: Seq<char>, owner: Seq<
    char,
>)
    requires
        forall|j: int| 0 <= j < files.len() ==> !file_key_match(#[trigger] files[j], id, owner),
    ensures
        find_file_idx(files.push(f), id, owner) == (if file_key_match(f, id, owner) {
            Some(files.len() as int)
        } else {
            None::<int>
        }),
    decreases files.len(),
{
    if files.len() == 0 {
        assert(files.push(f)[0] == f);
        if !file_key_match(f, id, owner) {
            assert(files.push(f).drop_first() =~= Seq::<FileDoc>::empty());
            assert(find_file_idx(Seq::<FileDoc>::empty(), id, owner) is None);
        }
    } else {
        assert(files.push(f)[0] == files[0]);
        assert(!file_key_match(files[0], id, owner));
        assert(files.push(f).drop_first() =~= files.drop_first().push(f));
        assert(forall|j: int|
            0 <= j < files.drop_first().len() ==> !file_key_match(
                #[trigger] files.drop_first()[j],
                id,
                owner,
            ));
        lemma_find_file_push_miss(files.drop_first(), f, id, owner);
    }
}

/// Same, for the blob collection.
proof fn lemma_find_blob_push_miss(blobs: Seq<Blob>, b: Blob, name: Seq<char>)
    requires
        forall|j: int| 0 <= j < blobs.len() ==> (#[trigger] blobs[j].name@) != name,
    ensures
        find_blob_idx(blobs.push(b), name) == (if b.name@ == name {
            Some(blobs.len() as int)
        } else {
            None::<int>
        }),
    decreases blobs.len(),
{
    if blobs.len() == 0 {
        assert(blobs.push(b)[0] == b);
        if b.name@ != name {
            assert(blobs.push(b).drop_first() =~= Seq::<Blob>::empty());
            assert(find_blob_idx(Seq::<Blob>::empty(), name) is None);
        }
    } else {
        assert(blobs.push(b)[0] == blobs[0]);
        assert(blobs.push(b).drop_first() =~= blobs.drop_first().push(b));
        lemma_find_blob_push_miss(blobs.drop_first(), b, name);
    }
}

/// After an upload, the owner-scoped lookup finds exactly the new file
/// object and the blob lookup finds exactly its content: downloading what
/// was just uploaded hands back byte-identical bytes and the recorded
/// original name.
pub proof fn lemma_upload_then_download(s: MemStore, t: MemStore, f: FileDoc, b: Blob)
    requires
        t.files@ == s.files@.push(f),
        t.blobs@ == s.blobs@.push(b),
        b.name@ == f.stored_name@,
        forall|j: int| 0 <= j < s.files@.len() ==> (#[trigger] s.files@[j].id@) != f.id@,
        forall|j: int| 0 <= j < s.blobs@.len() ==> (#[trigger] s.blobs@[j].name@) != f.stored_name@,
    ensures
        find_file_idx(t.files@, f.id@, f.owner_id@) == Some(s.files@.len() as int),
        t.files@[s.files@.len() as int] == f,
        find_blob_idx(t.blobs@, f.stored_name@) == Some(s.blobs@.len() as int),
        t.blobs@[s.blobs@.len() as int] == b,
{
    assert(forall|j: int|
        0 <= j < s.files@.len() ==> !file_key_match(#[trigger] s.files@[j], f.id@, f.owner_id@));
    lemma_find_file_push_miss(s.files@, f, f.id@, f.owner_id@);
    lemma_find_blob_push_miss(s.blobs@, b, f.stored_name@);
}

/// Every element of a listing is an element of the collection.
proof fn lemma_owned_subset(files: Seq<FileDoc>, owner: Seq<char>)
    ensures
        forall|j: int|
            0 <= j < owned_files(files, owner).len() ==> files.contains(
                #[trigger] owned_files(files, owner)[j],
            ),
    decreases files.len(),
{
    reveal(Seq::filter);
    if files.len() > 0 {
        let d = files.drop_last();
        lemma_owned_subset(d, owner);
        assert forall|j: int| 0 <= j < owned_files(files, owner).len() implies files.contains(
            #[trigger] owned_files(files, owner)[j],
        ) by {
            if j < owned_files(d, owner).len() {
                let x = owned_files(d, owner)[j];
                assert(owned_files(files, owner)[j] == x);
                let i = choose|i: int| 0 <= i < d.len() && d[i] == x;
                assert(files[i] == x);
            } else {
                assert(files[files.len() - 1] == owned_files(files, owner)[j]);
            }
        }
    }
}

/// Everything in a listing is owned by the identity that asked.
proof fn lemma_owned_pred(files: Seq<FileDoc>, owner: Seq<char>)
    ensures
        forall|j: int|
            0 <= j < owned_files(files, owner).len() ==> (#[trigger] owned_files(
                files,
                owner,
            )[j]).owner_id@ == owner,
    decreases files.len(),
{
    reveal(Seq::filter);
    if files.len() > 0 {
        let d = files.drop_last();
        lemma_owned_pred(d, owner);
        assert forall|j: int| 0 <= j < owned_files(files, owner).len() implies (
        #[trigger] owned_files(files, owner)[j]).owner_id@ == owner by {
            if j < owned_files(d, owner).len() {
                assert(owned_files(files, owner)[j] == owned_files(d, owner)[j]);
            }
        }
    }
}

/// A file object of one owner is invisible under any other identity: the
/// owner-scoped lookup misses it, and the other identity's listing never
/// carries its id.
pub proof fn lemma_ownership_scoping(s: MemStore, k: int, other: Seq<char>)
    requires
        s.wf(),
        0 <= k < s.files@.len(),
        s.files@[k].owner_id@ != other,
    ensures
        find_file_idx(s.files@, s.files@[k].id@, other) is None,
        forall|j: int|
            0 <= j < owned_files(s.files@, other).len() ==> (#[trigger] owned_files(
                s.files@,
                other,
            )[j]).id@ != s.files@[k].id@,
{
    let id = s.files@[k].id@;
    lemma_find_file_idx_spec(s.files@, id, other);
    match find_file_idx(s.files@, id, other) {
        Some(m) => {
            assert(s.files@[m].id@ == id);
            if m != k {
                assert(false);
            }
            assert(false);
        },
        None => {},
    }
    lemma_owned_subset(s.files@, other);
    lemma_owned_pred(s.files@, other);
    assert forall|j: int| 0 <= j < owned_files(s.files@, other).len() implies (
    #[trigger] owned_files(s.files@, other)[j]).id@ != id by {
        let x = owned_files(s.files@, other)[j];
        assert(x.owner_id@ == other);
        assert(s.files@.contains(x));
        let i = choose|i: int| 0 <= i < s.files@.len() && s.files@[i] == x;
        assert(i != k);
        if x.id@ == id {
            assert(false);
        }
    }
}

/// After a deletion the same id under the same owner is gone: a second
/// deletion, and any download, answers not-found.
pub proof fn lemma_delete_then_gone(
    s: MemStore,
    t: MemStore,
    k: int,
    id: Seq<char>,
    owner: Seq<char>,
)
    requires
        s.wf(),
        find_file_idx(s.files@, id, owner) == Some(k),
        t.files@ == s.files@.remove(k),
    ensures
        find_file_idx(t.files@, id, owner) is None,
{
    lemma_find_file_idx_spec(s.files@, id, owner);
    lemma_find_file_idx_spec(t.files@, id, owner);
    match find_file_idx(t.files@, id, owner) {
        Some(m) => {
            assert(0 <= m < t.files@.len());
            if m < k {
                assert(t.files@[m] == s.files@[m]);
                assert(s.files@[m].id@ == id && s.files@[k].id@ == id);
                assert(false);
            } else {
                assert(t.files@[m] == s.files@[m + 1]);
                assert(s.files@[m + 1].id@ == id && s.files@[k].id@ == id);
                assert(false);
            }
        },
        None => {},
    }
}

} // verus!
