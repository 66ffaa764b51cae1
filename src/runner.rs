//! What the job consumer hands to the container runner for a commit.

use vstd::prelude::*;

verus! {

/// The start of the tag of each benchmark image.
pub const IMAGE_PREFIX: &'static str = "tremor-benchmark:";

/// The build argument that names the commit to build.
pub const COMMIT_ARG: &'static str = "commithash=";

/// How many characters of the commit hash the image tag keeps.
pub const SHORT_HASH_LEN: usize = 6;

/// The tag of the benchmark image of commit `hash`: the image prefix and the
/// first six characters of the hash. `None` for a hash shorter than that.
pub fn image_tag(hash: &str) -> (r: Option<String>)
    ensures
        hash@.len() < SHORT_HASH_LEN ==> r is None,
        hash@.len() >= SHORT_HASH_LEN ==> (r matches Some(t) && t@ == IMAGE_PREFIX@ + hash@.take(
            SHORT_HASH_LEN as int,
        )),
{
    if hash.unicode_len() < SHORT_HASH_LEN {
        return None;
    }
    let short = hash.substring_char(0, SHORT_HASH_LEN);
    Some(String::from_str(IMAGE_PREFIX).concat(short))
}

/// The build argument that selects commit `hash`.
pub fn build_arg(hash: &str) -> (r: String)
    ensures
        r@ == COMMIT_ARG@ + hash@,
{
    String::from_str(COMMIT_ARG).concat(hash)
}

} // verus!
