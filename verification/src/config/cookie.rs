use vstd::prelude::*;

verus! {

/// The same-site policy of the session cookie.
#[derive(Debug, Clone, Copy, PartialEq, Eq, Structural)]
pub enum SameSiteDef {
    Nothing,
    Lax,
    Strict,
}

} // verus!
