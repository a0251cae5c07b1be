//! Where the backend keeps its state on disk, derived from one fixed
//! application identifier: the database file lives directly under the
//! application's directory in the user's documents area, and persisted
//! images live in an `images` subdirectory of the same place. Deriving
//! every location from the same functions keeps the two from diverging.

use vstd::prelude::*;

verus! {

/// The fixed application identifier that names the data directory.
pub open spec fn app_dir_name() -> Seq<char> {
    "nvl-store"@
}

/// The fixed name of the database file inside the application directory.
pub open spec fn db_file_name() -> Seq<char> {
    "app_database.sqlite3"@
}

/// The application's directory under the documents area `docs`.
pub open spec fn app_dir_path(docs: Seq<char>) -> Seq<char> {
    docs + "/"@ + app_dir_name()
}

/// The database file's path under the documents area `docs`.
pub open spec fn db_path(docs: Seq<char>) -> Seq<char> {
    app_dir_path(docs) + "/"@ + db_file_name()
}

/// The image directory's path under the documents area `docs`.
pub open spec fn images_dir_path(docs: Seq<char>) -> Seq<char> {
    app_dir_path(docs) + "/"@ + "images"@
}

/// The path of the image file called `name` under the documents area `docs`.
pub open spec fn image_path(docs: Seq<char>, name: Seq<char>) -> Seq<char> {
    images_dir_path(docs) + "/"@ + name
}

/// Builds the application directory's path.
pub fn app_dir_in(docs: &str) -> (r: String)
    ensures
        r@ == app_dir_path(docs@),
{
    String::from_str(docs).concat("/").concat("nvl-store")
}

/// Builds the database file's path.
pub fn db_path_in(docs: &str) -> (r: String)
    ensures
        r@ == db_path(docs@),
{
    app_dir_in(docs).concat("/").concat("app_database.sqlite3")
}

/// Builds the image directory's path.
pub fn images_dir_in(docs: &str) -> (r: String)
    ensures
        r@ == images_dir_path(docs@),
{
    app_dir_in(docs).concat("/").concat("images")
}

/// Builds the path at which the image called `name` is persisted.
///
/// `name` is taken as given: a name holding path separators escapes the
/// image directory, and rejecting such names is the caller's decision.
pub fn image_path_in(docs: &str, name: &str) -> (r: String)
    ensures
        r@ == image_path(docs@, name@),
{
    images_dir_in(docs).concat("/").concat(name)
}

/// Both persisted locations lie inside the one application directory: the
/// database path and every image path extend `app_dir_path(docs)` by a
/// separator, so the two collaborators can never disagree about where the
/// application's data lives.
pub proof fn lemma_shared_app_dir(docs: Seq<char>, name: Seq<char>)
    ensures
        crate::classify::has_prefix(db_path(docs), app_dir_path(docs) + "/"@),
        crate::classify::has_prefix(image_path(docs, name), app_dir_path(docs) + "/"@),
{
    let base = app_dir_path(docs) + "/"@;
    assert(db_path(docs).subrange(0, base.len() as int) =~= base);
    assert(image_path(docs, name).subrange(0, base.len() as int) =~= base);
}

} // verus!
