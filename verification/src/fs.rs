//! Paths to bundled assets.

use vstd::prelude::*;
use vstd::string::StringExecFns;

verus! {

/// Knows where the application's assets live.
pub struct FileSystem {
    /// The directory the asset tree sits under.
    pub base_path: &'static str,
}

impl FileSystem {
    pub fn new(base_path: &'static str) -> (fs: FileSystem)
        ensures
            fs.base_path == base_path,
    {
        FileSystem { base_path }
    }

    /// The path of a texture file: the asset directory under the base
    /// path, then the file's name.
    pub fn get_texture_file_path(&self, name: &str) -> (path: String)
        ensures
            path@ == self.base_path@ + "/assets/"@ + name@,
    {
        let p: String = String::from_str(self.base_path);
        let p: String = p.concat("/assets/");
        p.concat(name)
    }
}

} // verus!
