use vstd::prelude::*;
use crate::config::ConfigError;
use crate::text::clone_opt;
use crate::text::opt_view;

verus! {

/// Where vault and key file lie on disk.
#[derive(Debug)]
pub struct Filesystem {
    pub db_location: String,
    pub keyfile_location: Option<String>,
}

/// What a `Filesystem` holds, as mathematical values.
pub struct FilesystemView {
    pub db_location: Seq<char>,
    pub keyfile_location: Option<Seq<char>>,
}

impl View for Filesystem {
    type V = FilesystemView;

    open spec fn view(&self) -> FilesystemView {
        FilesystemView {
            db_location: self.db_location@,
            keyfile_location: opt_view(self.keyfile_location),
        }
    }
}

impl Clone for Filesystem {
    fn clone(&self) -> (copy: Self)
        ensures
            copy@ == self@,
    {
        Filesystem {
            db_location: self.db_location.clone(),
            keyfile_location: clone_opt(&self.keyfile_location),
        }
    }
}

impl Default for Filesystem {
    fn default() -> (config: Self)
        ensures
            config@ == (FilesystemView { db_location: Seq::<char>::empty(), keyfile_location: None }),
    {
        Filesystem { db_location: String::new(), keyfile_location: None }
    }
}

impl Filesystem {
    /// A configuration is complete once it names the vault's location.
    pub fn validate(&self) -> (r: Result<(), ConfigError>)
        ensures
            r is Ok <==> self.db_location@.len() > 0,
            r is Err ==> r == Err::<(), ConfigError>(ConfigError::FilesystemDbLocation),
    {
        if self.db_location.as_str().is_empty() {
            return Err(ConfigError::FilesystemDbLocation);
        }
        Ok(())
    }
}

} // verus!
