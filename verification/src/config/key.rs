use vstd::prelude::*;

verus! {

/// The secret that signs and encrypts the session cookie. Without bytes, a
/// fresh one is to be made at start.
#[derive(Debug)]
pub struct CookieKey(pub Vec<u8>);

impl Clone for CookieKey {
    fn clone(&self) -> (copy: Self)
        ensures
            copy.0@ == self.0@,
    {
        CookieKey(self.0.clone())
    }
}

impl Default for CookieKey {
    fn default() -> (key: Self)
        ensures
            key.0@.len() == 0,
    {
        CookieKey(Vec::new())
    }
}

} // verus!
