//! The virtual file system that the engine reads assets through.
use vstd::prelude::*;

verus! {

#[verifier::external_type_specification]
#[verifier::external_body]
pub struct ExIoError(std::io::Error);

/// A file's name, extension and contents.
pub struct GenericFile {
    pub name: String,
    pub extension: String,
    pub data: Vec<u8>,
}

impl GenericFile {
    /// A file of unknown name and extension holding `data`.
    pub fn unknown(data: Vec<u8>) -> (r: GenericFile)
        ensures
            r.name@ == seq!['U', 'n', 'k', 'n', 'o', 'w', 'n'],
            r.extension@ == seq!['U', 'n', 'k', 'n', 'o', 'w', 'n'],
            r.data@ == data@,
    {
        proof {
            reveal_strlit("Unknown");
        }
        assert("Unknown"@ =~= seq!['U', 'n', 'k', 'n', 'o', 'w', 'n']);
        GenericFile { name: String::from_str("Unknown"), extension: String::from_str("Unknown"), data }
    }
}

/// A store of files addressed by path.
pub trait VirtualFileSystem {
    fn read_file(&self, path: &str) -> Result<GenericFile, std::io::Error>;

    fn write_file(&self, path: &str, data: GenericFile) -> Result<(), std::io::Error>;

    /// Appends the contents of the file at `path` to `bytes`.
    fn read_bytes(&self, path: &str, bytes: &mut Vec<u8>) -> Result<(), std::io::Error>;

    fn write_bytes(&self, path: &str, data: &[u8]) -> Result<(), std::io::Error>;
}

/// Relies on `std::io::Error::new`: an error of kind `Other` carrying `msg`.
#[verifier::external_body]
fn other_error(msg: &str) -> std::io::Error {
    std::io::Error::new(std::io::ErrorKind::Other, msg)
}

/// A file system meant to keep files in serialized form; it holds none yet,
/// so every operation fails.
pub struct BinVFS;

impl VirtualFileSystem for BinVFS {
    fn read_file(&self, path: &str) -> Result<GenericFile, std::io::Error> {
        Err(other_error("VFS did not return!"))
    }

    fn write_file(&self, path: &str, data: GenericFile) -> Result<(), std::io::Error> {
        Err(other_error("VFS cannot write files"))
    }

    fn read_bytes(&self, path: &str, bytes: &mut Vec<u8>) -> Result<(), std::io::Error> {
        Err(other_error("VFS did not return!"))
    }

    fn write_bytes(&self, path: &str, data: &[u8]) -> Result<(), std::io::Error> {
        Err(other_error("VFS cannot write files"))
    }
}

} // verus!
