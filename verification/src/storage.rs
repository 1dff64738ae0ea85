//! The trusted boundary to the sled storage engine. A tree is modelled as
//! a map from string keys to byte values; each wrapper below states, over
//! that model, what the sled call it makes does.

use vstd::prelude::*;

verus! {

#[verifier::external_type_specification]
#[verifier::external_body]
pub struct ExDb(sled::Db);

#[verifier::external_type_specification]
#[verifier::external_body]
pub struct ExTree(sled::Tree);

#[verifier::external_type_specification]
#[verifier::external_body]
pub struct ExSledError(sled::Error);

/// What a tree holds: the value stored under each string key.
pub uninterp spec fn tree_view(t: sled::Tree) -> Map<Seq<char>, Seq<u8>>;

/// The key currently holds exactly the expected value (`None` meaning the
/// key is absent): the condition under which a compare-and-swap succeeds.
pub open spec fn entry_matches(
    m: Map<Seq<char>, Seq<u8>>,
    k: Seq<char>,
    expected: Option<Vec<u8>>,
) -> bool {
    match expected {
        Some(b) => m.dom().contains(k) && m[k] == b@,
        None => !m.dom().contains(k),
    }
}

/// Relies on sled::open and sled::Db::open_tree: opens (or creates) the
/// database at the path and the two named trees in it. What the trees hold
/// is whatever the directory held, so nothing is promised of the contents.
#[verifier::external_body]
pub(crate) fn open_db_trees(path: &str, name_a: &str, name_b: &str) -> (r: Result<(sled::Db, sled::Tree, sled::Tree), sled::Error>)
    requires
        name_a@ != name_b@,
{
    let db = sled::open(path)?;
    let a = db.open_tree(name_a.as_bytes())?;
    let b = db.open_tree(name_b.as_bytes())?;
    Ok((db, a, b))
}

/// Relies on sled::Config::open with `temporary` set, and sled::Db::open_tree:
/// the database is created in a fresh temporary directory, so it is empty,
/// and each named tree opened in it is empty too.
#[verifier::external_body]
pub(crate) fn open_temporary_trees(name_a: &str, name_b: &str) -> (r: Result<(sled::Db, sled::Tree, sled::Tree), sled::Error>)
    requires
        name_a@ != name_b@,
    ensures
        r matches Ok(t) ==> (tree_view(t.1) == Map::<Seq<char>, Seq<u8>>::empty() && tree_view(t.2) == Map::<Seq<char>, Seq<u8>>::empty()),
{
    let db = sled::Config::new().temporary(true).open()?;
    let a = db.open_tree(name_a.as_bytes())?;
    let b = db.open_tree(name_b.as_bytes())?;
    Ok((db, a, b))
}

/// Relies on sled::Tree::get: returns the value stored under the key, if
/// any, and does not modify the tree.
#[verifier::external_body]
pub(crate) fn tree_get(t: &sled::Tree, key: &str) -> (r: Result<Option<Vec<u8>>, sled::Error>)
    ensures
        r matches Ok(v) ==> ((v is Some <==> tree_view(*t).dom().contains(key@)) && (v matches Some(
            b,
        ) ==> b@ == tree_view(*t)[key@])),
{
    match t.get(key.as_bytes()) {
        Ok(Some(iv)) => Ok(Some(iv.to_vec())),
        Ok(None) => Ok(None),
        Err(e) => Err(e),
    }
}

/// Relies on sled::Tree::compare_and_swap: atomically, if the key holds
/// exactly the expected value (`None` meaning absent), replaces it with the
/// new value and reports success; otherwise changes nothing and reports
/// failure. On an engine error the one key written may or may not have
/// taken the new value; no other key is touched.
#[verifier::external_body]
pub(crate) fn tree_cas(
    t: &mut sled::Tree,
    key: &str,
    expected: &Option<Vec<u8>>,
    new_val: &Vec<u8>,
) -> (r: Result<bool, sled::Error>)
    ensures
        r matches Ok(swapped) ==> (swapped <==> entry_matches(
            tree_view(*old(t)),
            key@,
            *expected,
        )),
        r == Ok::<bool, sled::Error>(true) ==> tree_view(*final(t)) == tree_view(*old(t)).insert(
            key@,
            new_val@,
        ),
        r == Ok::<bool, sled::Error>(false) ==> tree_view(*final(t)) == tree_view(*old(t)),
        r is Err ==> (tree_view(*final(t)) == tree_view(*old(t)) || tree_view(*final(t))
            == tree_view(*old(t)).insert(key@, new_val@)),
{
    let old_arg = expected.as_ref().map(|v| v.as_slice());
    match t.compare_and_swap(key.as_bytes(), old_arg, Some(new_val.as_slice())) {
        Ok(Ok(())) => Ok(true),
        Ok(Err(_)) => Ok(false),
        Err(e) => Err(e),
    }
}

/// Relies on sled::Tree::insert: maps the key to the value. On an engine
/// error the one key written may or may not have taken the new value; no
/// other key is touched.
#[verifier::external_body]
pub(crate) fn tree_insert(t: &mut sled::Tree, key: &str, val: &Vec<u8>) -> (r: Result<(), sled::Error>)
    ensures
        r is Ok ==> tree_view(*final(t)) == tree_view(*old(t)).insert(key@, val@),
        r is Err ==> (tree_view(*final(t)) == tree_view(*old(t)) || tree_view(*final(t))
            == tree_view(*old(t)).insert(key@, val@)),
{
    match t.insert(key.as_bytes(), val.as_slice()) {
        Ok(_) => Ok(()),
        Err(e) => Err(e),
    }
}

/// Relies on sled::Tree::remove: removes the key. On an engine error the
/// one key may or may not have been removed; no other key is touched.
#[verifier::external_body]
pub(crate) fn tree_remove(t: &mut sled::Tree, key: &str) -> (r: Result<(), sled::Error>)
    ensures
        r is Ok ==> tree_view(*final(t)) == tree_view(*old(t)).remove(key@),
        r is Err ==> (tree_view(*final(t)) == tree_view(*old(t)) || tree_view(*final(t))
            == tree_view(*old(t)).remove(key@)),
{
    match t.remove(key.as_bytes()) {
        Ok(_) => Ok(()),
        Err(e) => Err(e),
    }
}

/// Relies on sled::Tree::flush: forces pending writes onto the storage
/// medium; the tree's contents are not changed.
#[verifier::external_body]
pub(crate) fn tree_flush(t: &sled::Tree) -> (r: Result<(), sled::Error>) {
    match t.flush() {
        Ok(_) => Ok(()),
        Err(e) => Err(e),
    }
}

} // verus!
