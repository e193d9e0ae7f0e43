//! Standard-library types that the library carries through its values, and
//! the one standard conversion it needs that Verus does not specify.
use vstd::prelude::*;
use vstd::utf8::*;

verus! {

#[verifier::external_type_specification]
#[verifier::external_body]
pub struct ExIoError(std::io::Error);

#[verifier::external_type_specification]
#[verifier::external_body]
pub struct ExPathBuf(std::path::PathBuf);

/// What `String::from_utf8_lossy` makes of `bytes`.
pub uninterp spec fn utf8_lossy_text(bytes: Seq<u8>) -> Seq<char>;

/// Trusted: `String::from_utf8_lossy(bytes).into_owned()`. The text is a
/// function of the bytes alone; the standard documentation states that valid
/// UTF-8 comes back decoded unchanged. What replaces invalid sequences is not
/// stated here.
#[verifier::external_body]
pub(crate) fn utf8_lossy(bytes: &[u8]) -> (s: String)
    ensures
        s@ == utf8_lossy_text(bytes@),
        valid_utf8(bytes@) ==> s@ == decode_utf8(bytes@),
{
    String::from_utf8_lossy(bytes).into_owned()
}

} // verus!

verus! {

/// The text `PathBuf::display` shows for `p`.
pub uninterp spec fn path_text(p: std::path::PathBuf) -> Seq<char>;

/// Trusted: `format!("{}", p.display())`, a function of the path alone.
#[verifier::external_body]
pub(crate) fn display_path(p: &std::path::PathBuf) -> (s: String)
    ensures
        s@ == path_text(*p),
{
    format!("{}", p.display())
}

} // verus!
