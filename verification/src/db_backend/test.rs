use vstd::prelude::*;

verus! {

/// A vault held in memory, for test harnesses.
pub struct Test {
    pub buf: Vec<u8>,
}

impl Test {
    /// A backend that holds no bytes yet.
    pub fn new() -> (backend: Self)
        ensures
            backend.buf@.len() == 0,
    {
        Test { buf: Vec::new() }
    }

    /// The vault's bytes.
    pub fn get_db_read(&self) -> (bytes: &Vec<u8>)
        ensures
            bytes@ == self.buf@,
    {
        &self.buf
    }

    /// Puts `bytes` at the end of the vault.
    pub fn get_db_write(&mut self, bytes: &[u8])
        ensures
            final(self).buf@ == old(self).buf@ + bytes@,
    {
        self.buf.extend_from_slice(bytes);
    }
}

} // verus!
